//! The component registry and the headless properties and state of every
//! component.
use crate::tokens::elevation::{level_dp, level_rank, ElevationLevel};
use crate::tokens::shape::{shape_radius, shape_rank, ShapeStyle};
use vstd::prelude::*;

verus! {

/// Every component of the library.
#[derive(Clone, Copy, Debug, PartialEq, Eq, Hash, Structural)]
pub enum ComponentId {
    Button,
    IconButton,
    Fab,
    ExtendedFab,
    FabMenu,
    SplitButton,
    ButtonGroup,
    Card,
    Checkbox,
    Switch,
    RadioButton,
    Slider,
    ProgressIndicator,
    LoadingIndicator,
    AssistChip,
    FilterChip,
    InputChip,
    SuggestionChip,
    Dialog,
    BottomSheet,
    NavigationBar,
    NavigationRail,
    NavigationDrawer,
    Scaffold,
    TopAppBar,
    SearchBar,
    TextField,
    Menu,
    Carousel,
    DatePicker,
    TimePicker,
    Tooltip,
    Snackbar,
    Badge,
    ListItem,
    Tabs,
    SegmentedButton,
    Divider,
    PullToRefresh,
    SwipeToDismiss,
    Toolbar,
}

/// The position of a component in the registry order.
pub open spec fn component_rank(c: ComponentId) -> int {
    match c {
        ComponentId::Button => 0,
        ComponentId::IconButton => 1,
        ComponentId::Fab => 2,
        ComponentId::ExtendedFab => 3,
        ComponentId::FabMenu => 4,
        ComponentId::SplitButton => 5,
        ComponentId::ButtonGroup => 6,
        ComponentId::Card => 7,
        ComponentId::Checkbox => 8,
        ComponentId::Switch => 9,
        ComponentId::RadioButton => 10,
        ComponentId::Slider => 11,
        ComponentId::ProgressIndicator => 12,
        ComponentId::LoadingIndicator => 13,
        ComponentId::AssistChip => 14,
        ComponentId::FilterChip => 15,
        ComponentId::InputChip => 16,
        ComponentId::SuggestionChip => 17,
        ComponentId::Dialog => 18,
        ComponentId::BottomSheet => 19,
        ComponentId::NavigationBar => 20,
        ComponentId::NavigationRail => 21,
        ComponentId::NavigationDrawer => 22,
        ComponentId::Scaffold => 23,
        ComponentId::TopAppBar => 24,
        ComponentId::SearchBar => 25,
        ComponentId::TextField => 26,
        ComponentId::Menu => 27,
        ComponentId::Carousel => 28,
        ComponentId::DatePicker => 29,
        ComponentId::TimePicker => 30,
        ComponentId::Tooltip => 31,
        ComponentId::Snackbar => 32,
        ComponentId::Badge => 33,
        ComponentId::ListItem => 34,
        ComponentId::Tabs => 35,
        ComponentId::SegmentedButton => 36,
        ComponentId::Divider => 37,
        ComponentId::PullToRefresh => 38,
        ComponentId::SwipeToDismiss => 39,
        ComponentId::Toolbar => 40,
    }
}

impl ComponentId {
    /// The registry: every component exactly once, in declaration order.
    pub const ALL: [Self; 41] = [
        Self::Button,
        Self::IconButton,
        Self::Fab,
        Self::ExtendedFab,
        Self::FabMenu,
        Self::SplitButton,
        Self::ButtonGroup,
        Self::Card,
        Self::Checkbox,
        Self::Switch,
        Self::RadioButton,
        Self::Slider,
        Self::ProgressIndicator,
        Self::LoadingIndicator,
        Self::AssistChip,
        Self::FilterChip,
        Self::InputChip,
        Self::SuggestionChip,
        Self::Dialog,
        Self::BottomSheet,
        Self::NavigationBar,
        Self::NavigationRail,
        Self::NavigationDrawer,
        Self::Scaffold,
        Self::TopAppBar,
        Self::SearchBar,
        Self::TextField,
        Self::Menu,
        Self::Carousel,
        Self::DatePicker,
        Self::TimePicker,
        Self::Tooltip,
        Self::Snackbar,
        Self::Badge,
        Self::ListItem,
        Self::Tabs,
        Self::SegmentedButton,
        Self::Divider,
        Self::PullToRefresh,
        Self::SwipeToDismiss,
        Self::Toolbar,
    ];
}

/// The five button sizes, extra small to extra large.
#[derive(Clone, Copy, Debug, PartialEq, Eq, Hash, Structural)]
pub enum Size {
    Xs,
    S,
    M,
    L,
    Xl,
}


/// The visual variants of a button.
#[derive(Clone, Copy, Debug, PartialEq, Eq, Hash, Structural)]
pub enum Variant {
    Elevated,
    Filled,
    Tonal,
    Outlined,
    Text,
}


/// A button.
#[derive(Clone, Debug, PartialEq)]
pub struct ButtonProps {
    pub variant: Variant,
    pub size: Size,
    pub enabled: bool,
    pub label: String,
    pub morph_on_press: bool,
}


/// The sizes of a floating action button.
#[derive(Clone, Copy, Debug, PartialEq, Eq, Structural)]
pub enum FabSize {
    Small,
    Medium,
    Large,
}


/// A floating action button, possibly expanded or opening a menu.
#[derive(Clone, Debug, PartialEq, Structural)]
pub struct FabProps {
    pub size: FabSize,
    pub expanded: bool,
    pub menu_open: bool,
    pub menu_items: u8,
}


/// A split button: a main action and a menu trigger.
#[derive(Clone, Debug, PartialEq)]
pub struct SplitButtonProps {
    pub main_label: String,
    pub menu_open: bool,
    pub enabled: bool,
}


/// A group of buttons, connected or not, single or multi select.
#[derive(Clone, Debug, PartialEq)]
pub struct ButtonGroupProps {
    pub connected: bool,
    pub multi_select: bool,
    pub selected: Vec<usize>,
    pub count: usize,
}


/// The visual variants of an icon button.
#[derive(Clone, Copy, Debug, PartialEq, Eq, Structural)]
pub enum IconButtonVariant {
    Standard,
    Filled,
    Tonal,
    Outlined,
}


/// An icon button, possibly a toggle.
#[derive(Clone, Debug, PartialEq, Structural)]
pub struct IconButtonProps {
    pub variant: IconButtonVariant,
    pub toggleable: bool,
    pub checked: bool,
    pub enabled: bool,
    pub wide: bool,
}


/// The three states of a checkbox.
#[derive(Clone, Copy, Debug, PartialEq, Eq, Structural)]
pub enum CheckState {
    Off,
    On,
    Indeterminate,
}


/// A checkbox.
#[derive(Clone, Copy, Debug, PartialEq, Structural)]
pub struct CheckboxProps {
    pub state: CheckState,
    pub enabled: bool,
}


/// A switch.
#[derive(Clone, Copy, Debug, PartialEq, Structural)]
pub struct SwitchProps {
    pub on: bool,
    pub enabled: bool,
    pub with_icon: bool,
}


/// A radio button.
#[derive(Clone, Copy, Debug, PartialEq, Structural)]
pub struct RadioProps {
    pub selected: bool,
    pub enabled: bool,
}


/// A loading indicator, contained or not.
#[derive(Clone, Copy, Debug, PartialEq, Structural)]
pub struct LoadingProps {
    pub contained: bool,
}


/// A chip.
#[derive(Clone, Debug, PartialEq)]
pub struct ChipProps {
    pub label: String,
    pub selected: bool,
    pub enabled: bool,
    pub with_icon: bool,
}


/// The visual variants of a card.
#[derive(Clone, Copy, Debug, PartialEq, Eq, Structural)]
pub enum CardVariant {
    Elevated,
    Filled,
    Outlined,
}


/// A card.
#[derive(Clone, Copy, Debug, PartialEq, Structural)]
pub struct CardProps {
    pub variant: CardVariant,
    pub enabled: bool,
}


/// The kinds of dialog.
#[derive(Clone, Copy, Debug, PartialEq, Eq, Structural)]
pub enum DialogKind {
    Alert,
    Basic,
    FullScreen,
}


/// Whether a dialog is open, and its kind.
#[derive(Clone, Copy, Debug, PartialEq, Eq, Structural)]
pub struct DialogState {
    pub open: bool,
    pub kind: DialogKind,
}


/// The kinds of sheet.
#[derive(Clone, Copy, Debug, PartialEq, Eq, Structural)]
pub enum SheetKind {
    ModalBottom,
    Side,
    Scaffold,
}


/// A navigation bar or rail: its items and the selected one.
#[derive(Clone, Debug, PartialEq)]
pub struct NavProps {
    pub items: Vec<String>,
    pub selected: usize,
}


/// The kinds of navigation drawer.
#[derive(Clone, Copy, Debug, PartialEq, Eq, Structural)]
pub enum DrawerKind {
    Modal,
    Dismissible,
    Permanent,
}


/// Whether a drawer is open, and its kind.
#[derive(Clone, Copy, Debug, PartialEq, Structural)]
pub struct DrawerState {
    pub open: bool,
    pub kind: DrawerKind,
}


/// The kinds of top app bar.
#[derive(Clone, Copy, Debug, PartialEq, Eq, Structural)]
pub enum AppBarKind {
    Small,
    CenterAligned,
    Medium,
    Large,
    Flexible,
    ExitUntilCollapsed,
}


/// A scaffold: its app bar and which slots are filled.
#[derive(Clone, Debug, PartialEq, Structural)]
pub struct ScaffoldProps {
    pub app_bar: AppBarKind,
    pub fab_present: bool,
    pub snackbar_present: bool,
}


/// A search bar or view.
#[derive(Clone, Debug, PartialEq)]
pub struct SearchProps {
    pub query: String,
    pub expanded: bool,
    pub docked: bool,
}


/// A text field, with an optional error message.
#[derive(Clone, Debug, PartialEq)]
pub struct TextFieldProps {
    pub text: String,
    pub label: String,
    pub outlined: bool,
    pub secure: bool,
    pub error: Option<String>,
    pub enabled: bool,
}


/// A menu: items, grouped runs of items, and the selection.
#[derive(Clone, Debug, PartialEq)]
pub struct MenuProps {
    pub open: bool,
    pub items: Vec<String>,
    pub groups: Vec<(String, usize)>,
    pub selected: Vec<usize>,
}


/// The layouts of a carousel.
#[derive(Clone, Copy, Debug, PartialEq, Eq, Structural)]
pub enum CarouselKind {
    MultiBrowse,
    Uncontained,
    Hero,
    CenteredHero,
}


/// A carousel: its layout, current item and item count.
#[derive(Clone, Debug, PartialEq, Structural)]
pub struct CarouselState {
    pub kind: CarouselKind,
    pub index: usize,
    pub count: usize,
}


/// A date picker: the picked day (or range) in epoch milliseconds.
#[derive(Clone, Copy, Debug, PartialEq, Eq, Structural)]
pub struct DateState {
    pub millis: Option<u64>,
    pub range_end_millis: Option<u64>,
    pub dialog_open: bool,
}


/// A time picker.
#[derive(Clone, Copy, Debug, PartialEq, Eq, Structural)]
pub struct TimeState {
    pub hour: u8,
    pub minute: u8,
    pub input_mode: bool,
    pub dialog_open: bool,
}


/// A plain or rich tooltip.
#[derive(Clone, Debug, PartialEq)]
pub struct TooltipProps {
    pub text: String,
    pub rich: bool,
}


/// A snackbar message with an optional action.
#[derive(Clone, Debug, PartialEq)]
pub struct SnackbarData {
    pub message: String,
    pub action: Option<String>,
}


/// A badge, small (no count) or with a count.
#[derive(Clone, Copy, Debug, PartialEq, Eq, Structural)]
pub struct BadgeProps {
    pub count: Option<u32>,
}


/// A list item with up to three lines of text.
#[derive(Clone, Debug, PartialEq)]
pub struct ListItemProps {
    pub headline: String,
    pub supporting: Option<String>,
    pub trailing: Option<String>,
}


/// Primary or secondary tabs and the selected one.
#[derive(Clone, Debug, PartialEq)]
pub struct TabsProps {
    pub tabs: Vec<String>,
    pub selected: usize,
    pub secondary: bool,
}


/// A segmented button: options and the selection.
#[derive(Clone, Debug, PartialEq)]
pub struct SegmentedProps {
    pub options: Vec<String>,
    pub selected: Vec<usize>,
    pub multi: bool,
}


/// A horizontal or vertical divider.
#[derive(Clone, Copy, Debug, PartialEq, Eq, Structural)]
pub struct DividerProps {
    pub vertical: bool,
}


/// A swipe-to-dismiss item: dismissed or not, and in which direction.
#[derive(Clone, Copy, Debug, PartialEq, Eq, Structural)]
pub struct DismissState {
    pub dismissed: bool,
    pub direction_start_to_end: bool,
}


/// The kinds of toolbar.
#[derive(Clone, Copy, Debug, PartialEq, Eq, Structural)]
pub enum ToolbarKind {
    Docked,
    FloatingHorizontal,
    FloatingVertical,
    FlexibleBottom,
}


/// A toolbar, possibly with a FAB.
#[derive(Clone, Copy, Debug, PartialEq, Eq, Structural)]
pub struct ToolbarProps {
    pub kind: ToolbarKind,
    pub with_fab: bool,
}

/// The elevation a component rests at: dialogs, pickers, FABs and the search
/// bar float at level 3; menus, the navigation bar, toolbars and tooltips at
/// level 2; cards, buttons, chips and the bottom sheet at level 1; everything
/// else lies flat.
pub open spec fn spec_resting_elevation(id: ComponentId) -> ElevationLevel {
    match id {
        ComponentId::Dialog | ComponentId::DatePicker | ComponentId::TimePicker | ComponentId::Fab
        | ComponentId::ExtendedFab | ComponentId::SearchBar => ElevationLevel::L3,
        ComponentId::Menu | ComponentId::NavigationBar | ComponentId::Toolbar | ComponentId::Tooltip => ElevationLevel::L2,
        ComponentId::Card | ComponentId::Button | ComponentId::AssistChip | ComponentId::FilterChip
        | ComponentId::InputChip | ComponentId::SuggestionChip | ComponentId::BottomSheet => ElevationLevel::L1,
        _ => ElevationLevel::L0,
    }
}

/// The default corner shape of a component: buttons are pills, FABs large,
/// dialogs and bottom sheets extra large, snackbars small, the rest medium.
pub open spec fn spec_default_shape(id: ComponentId) -> ShapeStyle {
    match id {
        ComponentId::Button => ShapeStyle::Full,
        ComponentId::Fab | ComponentId::ExtendedFab => ShapeStyle::Large,
        ComponentId::Card => ShapeStyle::Medium,
        ComponentId::Dialog => ShapeStyle::ExtraLarge,
        ComponentId::BottomSheet => ShapeStyle::ExtraLarge,
        ComponentId::Snackbar => ShapeStyle::Small,
        _ => ShapeStyle::Medium,
    }
}

/// The elevation a component rests at.
pub fn resting_elevation(id: ComponentId) -> (e: ElevationLevel)
    ensures
        e == spec_resting_elevation(id),
{
    match id {
        ComponentId::Dialog | ComponentId::DatePicker | ComponentId::TimePicker | ComponentId::Fab
        | ComponentId::ExtendedFab | ComponentId::SearchBar => ElevationLevel::L3,
        ComponentId::Menu | ComponentId::NavigationBar | ComponentId::Toolbar | ComponentId::Tooltip => ElevationLevel::L2,
        ComponentId::Card | ComponentId::Button | ComponentId::AssistChip | ComponentId::FilterChip
        | ComponentId::InputChip | ComponentId::SuggestionChip | ComponentId::BottomSheet => ElevationLevel::L1,
        _ => ElevationLevel::L0,
    }
}

/// The default corner shape of a component.
pub fn default_shape(id: ComponentId) -> (s: ShapeStyle)
    ensures
        s == spec_default_shape(id),
{
    match id {
        ComponentId::Button => ShapeStyle::Full,
        ComponentId::Fab | ComponentId::ExtendedFab => ShapeStyle::Large,
        ComponentId::Card => ShapeStyle::Medium,
        ComponentId::Dialog => ShapeStyle::ExtraLarge,
        ComponentId::BottomSheet => ShapeStyle::ExtraLarge,
        ComponentId::Snackbar => ShapeStyle::Small,
        _ => ShapeStyle::Medium,
    }
}

/// Law: no component rests above level 3, the level of the floating
/// surfaces, and no component defaults to square corners.
pub proof fn lemma_component_resting_bounds(id: ComponentId)
    ensures
        level_rank(spec_resting_elevation(id)) <= 3,
        level_rank(spec_resting_elevation(id)) == 3 <==> (id == ComponentId::Dialog || id == ComponentId::DatePicker
            || id == ComponentId::TimePicker || id == ComponentId::Fab || id == ComponentId::ExtendedFab
            || id == ComponentId::SearchBar),
        shape_rank(spec_default_shape(id)) >= shape_rank(ShapeStyle::Small),
{
}

/// Law: the resting level of every component, group by group: the floating
/// surfaces (dialog, date and time pickers, FABs, search bar) at level 3,
/// menus, the navigation bar, toolbars and tooltips at level 2, cards,
/// buttons, the four chips and the bottom sheet at level 1, and nothing else
/// raised at all.
pub proof fn lemma_resting_levels_by_group(id: ComponentId)
    ensures
        level_dp(spec_resting_elevation(id)) == 6 <==> (id == ComponentId::Dialog || id == ComponentId::DatePicker
            || id == ComponentId::TimePicker || id == ComponentId::Fab || id == ComponentId::ExtendedFab
            || id == ComponentId::SearchBar),
        level_dp(spec_resting_elevation(id)) == 3 <==> (id == ComponentId::Menu || id == ComponentId::NavigationBar
            || id == ComponentId::Toolbar || id == ComponentId::Tooltip),
        level_dp(spec_resting_elevation(id)) == 1 <==> (id == ComponentId::Card || id == ComponentId::Button
            || id == ComponentId::AssistChip || id == ComponentId::FilterChip || id == ComponentId::InputChip
            || id == ComponentId::SuggestionChip || id == ComponentId::BottomSheet),
        level_dp(spec_resting_elevation(id)) == 0 <==> !(id == ComponentId::Dialog || id == ComponentId::DatePicker
            || id == ComponentId::TimePicker || id == ComponentId::Fab || id == ComponentId::ExtendedFab
            || id == ComponentId::SearchBar || id == ComponentId::Menu || id == ComponentId::NavigationBar
            || id == ComponentId::Toolbar || id == ComponentId::Tooltip || id == ComponentId::Card
            || id == ComponentId::Button || id == ComponentId::AssistChip || id == ComponentId::FilterChip
            || id == ComponentId::InputChip || id == ComponentId::SuggestionChip || id == ComponentId::BottomSheet),
{
}

/// Law: the default corner radius of every component: buttons are fully
/// rounded, FABs 16 dp, dialogs and bottom sheets 28 dp, snackbars 8 dp, and
/// every other component 12 dp.
pub proof fn lemma_default_radii(id: ComponentId)
    ensures
        shape_radius(spec_default_shape(id)) is None <==> id == ComponentId::Button,
        shape_radius(spec_default_shape(id)) == Some(16u32) <==> (id == ComponentId::Fab || id == ComponentId::ExtendedFab),
        shape_radius(spec_default_shape(id)) == Some(28u32) <==> (id == ComponentId::Dialog || id == ComponentId::BottomSheet),
        shape_radius(spec_default_shape(id)) == Some(8u32) <==> id == ComponentId::Snackbar,
        shape_radius(spec_default_shape(id)) == Some(12u32) <==> !(id == ComponentId::Button || id == ComponentId::Fab
            || id == ComponentId::ExtendedFab || id == ComponentId::Dialog || id == ComponentId::BottomSheet
            || id == ComponentId::Snackbar),
{
}

/// Law: the registry lists every component exactly once, each at its rank;
/// so it has no duplicates and misses none.
pub proof fn lemma_registry_complete()
    ensures
        ComponentId::ALL@.len() == 41,
        forall|i: int| 0 <= i < 41 ==> component_rank(#[trigger] ComponentId::ALL@[i]) == i,
        forall|c: ComponentId| #[trigger] ComponentId::ALL@[component_rank(c)] == c,
        forall|i: int, j: int| 0 <= i < 41 && 0 <= j < 41 && ComponentId::ALL@[i] == ComponentId::ALL@[j] ==> i == j,
{
}

} // verus!
