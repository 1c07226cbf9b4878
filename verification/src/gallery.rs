//! The interactive gallery's selection state: what each tap on a demo
//! component toggles or selects, and how tall each demo card is.
use crate::components::ComponentId;
use vstd::prelude::*;

verus! {

/// What a tap on a gallery zone does.
#[derive(Clone, Copy, Debug, PartialEq, Eq, Structural)]
pub enum GalleryAction {
    Switch(usize),
    Check(usize),
    Radio(usize),
    Chip(usize),
    Tab(usize),
    Nav(usize),
    Rail(usize),
    Segmented(usize),
    MenuItem(usize),
    CarouselPage(usize),
    FabMenu,
    Button(u32),
    Slider,
}

/// The number of demo switches, checkboxes and chips.
pub const SWITCH_COUNT: usize = 2;
pub const CHECK_COUNT: usize = 3;
pub const CHIP_COUNT: usize = 4;

/// The toggles and selections of the gallery. A checkbox is 0 (off), 1 (on)
/// or 2 (indeterminate).
#[derive(Clone, Copy, Debug)]
pub struct GallerySelection {
    pub switches: [bool; 2],
    pub checks: [u8; 3],
    pub radio: usize,
    pub chips: [bool; 4],
    pub tabs: usize,
    pub nav: usize,
    pub rail: usize,
    pub segmented: usize,
    pub menu_sel: usize,
    pub carousel: usize,
    pub fab_open: bool,
}

/// The selection state as plain values.
pub struct SelectionView {
    pub switches: Seq<bool>,
    pub checks: Seq<u8>,
    pub radio: usize,
    pub chips: Seq<bool>,
    pub tabs: usize,
    pub nav: usize,
    pub rail: usize,
    pub segmented: usize,
    pub menu_sel: usize,
    pub carousel: usize,
    pub fab_open: bool,
}

impl View for GallerySelection {
    type V = SelectionView;

    open spec fn view(&self) -> SelectionView {
        SelectionView {
            switches: self.switches@,
            checks: self.checks@,
            radio: self.radio,
            chips: self.chips@,
            tabs: self.tabs,
            nav: self.nav,
            rail: self.rail,
            segmented: self.segmented,
            menu_sel: self.menu_sel,
            carousel: self.carousel,
            fab_open: self.fab_open,
        }
    }
}

/// A well-formed selection: the arrays have their sizes and every checkbox
/// is in one of its three states.
pub open spec fn selection_wf(v: SelectionView) -> bool {
    &&& v.switches.len() == SWITCH_COUNT
    &&& v.checks.len() == CHECK_COUNT
    &&& v.chips.len() == CHIP_COUNT
    &&& forall|i: int| 0 <= i < CHECK_COUNT ==> #[trigger] v.checks[i] < 3
}

/// An action whose index names an existing switch, checkbox or chip.
pub open spec fn action_in_range(a: GalleryAction) -> bool {
    match a {
        GalleryAction::Switch(i) => i < SWITCH_COUNT,
        GalleryAction::Check(i) => i < CHECK_COUNT,
        GalleryAction::Chip(i) => i < CHIP_COUNT,
        _ => true,
    }
}

/// The selection after an action: switches, chips and the FAB menu flip,
/// a checkbox steps off -> on -> indeterminate -> off, the single-choice
/// groups take the tapped index, and buttons and the slider change nothing
/// here.
pub open spec fn activated(v: SelectionView, a: GalleryAction) -> SelectionView {
    match a {
        GalleryAction::Switch(i) => SelectionView { switches: v.switches.update(i as int, !v.switches[i as int]), ..v },
        GalleryAction::Check(i) => SelectionView {
            checks: v.checks.update(i as int, ((v.checks[i as int] + 1) % 3) as u8),
            ..v
        },
        GalleryAction::Radio(i) => SelectionView { radio: i, ..v },
        GalleryAction::Chip(i) => SelectionView { chips: v.chips.update(i as int, !v.chips[i as int]), ..v },
        GalleryAction::Tab(i) => SelectionView { tabs: i, ..v },
        GalleryAction::Nav(i) => SelectionView { nav: i, ..v },
        GalleryAction::Rail(i) => SelectionView { rail: i, ..v },
        GalleryAction::Segmented(i) => SelectionView { segmented: i, ..v },
        GalleryAction::MenuItem(i) => SelectionView { menu_sel: i, ..v },
        GalleryAction::CarouselPage(i) => SelectionView { carousel: i, ..v },
        GalleryAction::FabMenu => SelectionView { fab_open: !v.fab_open, ..v },
        GalleryAction::Button(_) => v,
        GalleryAction::Slider => v,
    }
}

impl GallerySelection {
    /// The starting selection: first switch on, checkboxes off/on/indeterminate,
    /// the second chip selected, the second menu item selected, everything
    /// else at index 0 and the FAB menu closed.
    pub fn new() -> (s: Self)
        ensures
            selection_wf(s@),
            s@.switches == seq![true, false],
            s@.checks == seq![0u8, 1u8, 2u8],
            s@.chips == seq![false, true, false, false],
            s.radio == 0 && s.tabs == 0 && s.nav == 0 && s.rail == 0 && s.segmented == 0,
            s.menu_sel == 1 && s.carousel == 0 && !s.fab_open,
    {
        let s = Self {
            switches: [true, false],
            checks: [0, 1, 2],
            radio: 0,
            chips: [false, true, false, false],
            tabs: 0,
            nav: 0,
            rail: 0,
            segmented: 0,
            menu_sel: 1,
            carousel: 0,
            fab_open: false,
        };
        assert(s@.switches =~= seq![true, false]);
        assert(s@.checks =~= seq![0u8, 1u8, 2u8]);
        assert(s@.chips =~= seq![false, true, false, false]);
        s
    }

    /// Applies a tap's action to the selection.
    pub fn activate(&mut self, action: GalleryAction)
        requires
            selection_wf(old(self)@),
            action_in_range(action),
        ensures
            final(self)@ == activated(old(self)@, action),
            selection_wf(final(self)@),
    {
        match action {
            GalleryAction::Switch(i) => self.switches[i] = !self.switches[i],
            GalleryAction::Check(i) => self.checks[i] = (self.checks[i] + 1) % 3,
            GalleryAction::Radio(i) => self.radio = i,
            GalleryAction::Chip(i) => self.chips[i] = !self.chips[i],
            GalleryAction::Tab(i) => self.tabs = i,
            GalleryAction::Nav(i) => self.nav = i,
            GalleryAction::Rail(i) => self.rail = i,
            GalleryAction::Segmented(i) => self.segmented = i,
            GalleryAction::MenuItem(i) => self.menu_sel = i,
            GalleryAction::CarouselPage(i) => self.carousel = i,
            GalleryAction::FabMenu => self.fab_open = !self.fab_open,
            GalleryAction::Button(_) => {},
            GalleryAction::Slider => {},
        }
    }
}

/// Law: switches, chips and the FAB menu are toggles: the same tap twice
/// restores the selection.
pub proof fn lemma_toggle_twice(v: SelectionView, a: GalleryAction)
    requires
        selection_wf(v),
        action_in_range(a),
        a is Switch || a is Chip || a is FabMenu,
    ensures
        activated(activated(v, a), a) == v,
{
    let w = activated(activated(v, a), a);
    assert(w.switches =~= v.switches);
    assert(w.chips =~= v.chips);
}

/// Law: a checkbox cycles through its three states: three taps restore the
/// selection, while one or two taps change it.
pub proof fn lemma_check_cycles(v: SelectionView, i: usize)
    requires
        selection_wf(v),
        i < CHECK_COUNT,
    ensures
        activated(activated(activated(v, GalleryAction::Check(i)), GalleryAction::Check(i)), GalleryAction::Check(i)) == v,
        activated(v, GalleryAction::Check(i)).checks[i as int] != v.checks[i as int],
        activated(activated(v, GalleryAction::Check(i)), GalleryAction::Check(i)).checks[i as int] != v.checks[i as int],
{
    let a = GalleryAction::Check(i);
    let w = activated(activated(activated(v, a), a), a);
    assert(w.checks =~= v.checks);
}

/// Law: a single-choice group selects the tapped index, so tapping it again
/// changes nothing; buttons and the slider never change the selection.
pub proof fn lemma_select_idempotent(v: SelectionView, a: GalleryAction)
    requires
        !(a is Switch || a is Chip || a is FabMenu || a is Check),
    ensures
        activated(activated(v, a), a) == activated(v, a),
        (a is Button || a is Slider) ==> activated(v, a) == v,
{
}

/// Law: an action touches only its own switch, checkbox or chip; the other
/// entries keep their state.
pub proof fn lemma_action_is_local(v: SelectionView, a: GalleryAction, j: int)
    requires
        selection_wf(v),
        action_in_range(a),
    ensures
        0 <= j < SWITCH_COUNT && !(a == GalleryAction::Switch(j as usize)) ==> activated(v, a).switches[j] == v.switches[j],
        0 <= j < CHECK_COUNT && !(a == GalleryAction::Check(j as usize)) ==> activated(v, a).checks[j] == v.checks[j],
        0 <= j < CHIP_COUNT && !(a == GalleryAction::Chip(j as usize)) ==> activated(v, a).chips[j] == v.chips[j],
{
}

/// Law: an action changes only its own group. A single-choice action sets
/// its group to the tapped index and every other group keeps its selection;
/// only switch, checkbox and chip actions change those arrays, and only the
/// FAB menu action opens or closes the FAB menu.
pub proof fn lemma_action_frame(v: SelectionView, a: GalleryAction)
    ensures
        activated(v, a).radio == (if let GalleryAction::Radio(i) = a { i } else { v.radio }),
        activated(v, a).tabs == (if let GalleryAction::Tab(i) = a { i } else { v.tabs }),
        activated(v, a).nav == (if let GalleryAction::Nav(i) = a { i } else { v.nav }),
        activated(v, a).rail == (if let GalleryAction::Rail(i) = a { i } else { v.rail }),
        activated(v, a).segmented == (if let GalleryAction::Segmented(i) = a { i } else { v.segmented }),
        activated(v, a).menu_sel == (if let GalleryAction::MenuItem(i) = a { i } else { v.menu_sel }),
        activated(v, a).carousel == (if let GalleryAction::CarouselPage(i) = a { i } else { v.carousel }),
        activated(v, a).fab_open == (if a is FabMenu { !v.fab_open } else { v.fab_open }),
        !(a is Switch) ==> activated(v, a).switches == v.switches,
        !(a is Check) ==> activated(v, a).checks == v.checks,
        !(a is Chip) ==> activated(v, a).chips == v.chips,
        forall|i: usize|
            a == GalleryAction::Switch(i) && i < SWITCH_COUNT && v.switches.len() == SWITCH_COUNT
                ==> activated(v, a).switches[i as int] == !v.switches[i as int]
                && activated(v, a).switches.len() == SWITCH_COUNT,
        forall|i: usize|
            a == GalleryAction::Chip(i) && i < CHIP_COUNT && v.chips.len() == CHIP_COUNT
                ==> activated(v, a).chips[i as int] == !v.chips[i as int]
                && activated(v, a).chips.len() == CHIP_COUNT,
        forall|i: usize|
            a == GalleryAction::Check(i) && i < CHECK_COUNT && selection_wf(v)
                ==> activated(v, a).checks[i as int] == (if v.checks[i as int] == 2 { 0 } else { v.checks[i as int] + 1 }),
{
}

/// The height in dp of the demo body drawn for a component (the gallery
/// scales it by its unit).
pub open spec fn spec_body_height_dp(id: ComponentId) -> u32 {
    match id {
        ComponentId::Button => 64,
        ComponentId::IconButton => 64,
        ComponentId::Fab => 76,
        ComponentId::ExtendedFab => 64,
        ComponentId::FabMenu => 190,
        ComponentId::SplitButton => 56,
        ComponentId::ButtonGroup => 56,
        ComponentId::Card => 150,
        ComponentId::Checkbox => 150,
        ComponentId::Switch => 110,
        ComponentId::RadioButton => 150,
        ComponentId::Slider => 70,
        ComponentId::ProgressIndicator => 120,
        ComponentId::LoadingIndicator => 70,
        ComponentId::AssistChip => 52,
        ComponentId::FilterChip => 52,
        ComponentId::InputChip => 52,
        ComponentId::SuggestionChip => 52,
        ComponentId::Dialog => 210,
        ComponentId::BottomSheet => 190,
        ComponentId::NavigationBar => 76,
        ComponentId::NavigationRail => 200,
        ComponentId::NavigationDrawer => 220,
        ComponentId::Scaffold => 240,
        ComponentId::TopAppBar => 110,
        ComponentId::SearchBar => 64,
        ComponentId::TextField => 160,
        ComponentId::Menu => 220,
        ComponentId::Carousel => 170,
        ComponentId::DatePicker => 320,
        ComponentId::TimePicker => 190,
        ComponentId::Tooltip => 120,
        ComponentId::Snackbar => 70,
        ComponentId::Badge => 64,
        ComponentId::ListItem => 180,
        ComponentId::Tabs => 60,
        ComponentId::SegmentedButton => 60,
        ComponentId::Divider => 30,
        ComponentId::PullToRefresh => 70,
        ComponentId::SwipeToDismiss => 70,
        ComponentId::Toolbar => 64,
    }
}

/// The height in dp of the demo body drawn for a component.
pub fn body_height_dp(id: ComponentId) -> (h: u32)
    ensures
        h == spec_body_height_dp(id),
{
    match id {
        ComponentId::Button => 64,
        ComponentId::IconButton => 64,
        ComponentId::Fab => 76,
        ComponentId::ExtendedFab => 64,
        ComponentId::FabMenu => 190,
        ComponentId::SplitButton => 56,
        ComponentId::ButtonGroup => 56,
        ComponentId::Card => 150,
        ComponentId::Checkbox => 150,
        ComponentId::Switch => 110,
        ComponentId::RadioButton => 150,
        ComponentId::Slider => 70,
        ComponentId::ProgressIndicator => 120,
        ComponentId::LoadingIndicator => 70,
        ComponentId::AssistChip => 52,
        ComponentId::FilterChip => 52,
        ComponentId::InputChip => 52,
        ComponentId::SuggestionChip => 52,
        ComponentId::Dialog => 210,
        ComponentId::BottomSheet => 190,
        ComponentId::NavigationBar => 76,
        ComponentId::NavigationRail => 200,
        ComponentId::NavigationDrawer => 220,
        ComponentId::Scaffold => 240,
        ComponentId::TopAppBar => 110,
        ComponentId::SearchBar => 64,
        ComponentId::TextField => 160,
        ComponentId::Menu => 220,
        ComponentId::Carousel => 170,
        ComponentId::DatePicker => 320,
        ComponentId::TimePicker => 190,
        ComponentId::Tooltip => 120,
        ComponentId::Snackbar => 70,
        ComponentId::Badge => 64,
        ComponentId::ListItem => 180,
        ComponentId::Tabs => 60,
        ComponentId::SegmentedButton => 60,
        ComponentId::Divider => 30,
        ComponentId::PullToRefresh => 70,
        ComponentId::SwipeToDismiss => 70,
        ComponentId::Toolbar => 64,
    }
}

} // verus!
