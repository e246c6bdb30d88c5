use crate::text::{concat3, decimal_text, u64_to_string};
use crate::tools::{Tool, ToolKind};
use crate::ui::format_menu_item;
use vstd::prelude::*;

verus! {

/// An entry of a menu: what choosing it means, and what is shown of it.
#[derive(Debug)]
pub struct MenuOption<T> {
    pub action: T,
    pub key: String,
    pub name: String,
    pub description: String,
}

/// A menu: its number among the steps of the dialogue, its heading and its
/// entries.
#[derive(Debug)]
pub struct Menu<T> {
    pub step: u8,
    pub title: String,
    pub options: Vec<MenuOption<T>>,
}

/// What a `MenuOption` holds, as plain values.
pub struct MenuOptionView<T> {
    pub action: T,
    pub key: Seq<char>,
    pub name: Seq<char>,
    pub description: Seq<char>,
}

/// What a `Menu` holds, as plain values.
pub struct MenuView<T> {
    pub step: u8,
    pub title: Seq<char>,
    pub options: Seq<MenuOptionView<T>>,
}

impl<T> View for MenuOption<T> {
    type V = MenuOptionView<T>;

    open spec fn view(&self) -> MenuOptionView<T> {
        MenuOptionView {
            action: self.action,
            key: self.key@,
            name: self.name@,
            description: self.description@,
        }
    }
}

impl<T> View for Menu<T> {
    type V = MenuView<T>;

    open spec fn view(&self) -> MenuView<T> {
        MenuView {
            step: self.step,
            title: self.title@,
            options: Seq::new(self.options@.len(), |i: int| self.options@[i]@),
        }
    }
}

/// The entry at a place of a menu, places counted from one: its key is the
/// place in square brackets.
pub open spec fn entry<T>(place: nat, action: T, name: Seq<char>, description: Seq<char>)
    -> MenuOptionView<T> {
    MenuOptionView { action, key: "["@ + decimal_text(place) + "]"@, name, description }
}

/// The line that shows an entry.
pub open spec fn item_text<T>(option: MenuOptionView<T>) -> Seq<char> {
    option.key + " "@ + option.name + " - "@ + option.description
}

/// The entry at a place of a menu.
fn option_at<T>(place: usize, action: T, name: &str, description: &str) -> (r: MenuOption<T>)
    ensures
        r@ == entry(place as nat, action, name@, description@),
{
    MenuOption {
        action,
        key: concat3("[", u64_to_string(place as u64).as_str(), "]"),
        name: name.to_owned(),
        description: description.to_owned(),
    }
}

impl<T: Copy> Menu<T> {
    /// The lines that show the entries of the menu.
    pub fn items(&self) -> (r: Vec<String>)
        ensures
            r@.len() == self@.options.len(),
            forall|i: int| 0 <= i < r@.len() ==> (#[trigger] r@[i])@ == item_text(self@.options[i]),
    {
        let mut items: Vec<String> = Vec::new();
        let mut i: usize = 0;
        while i < self.options.len()
            invariant
                i <= self.options.len(),
                items@.len() == i,
                forall|k: int| 0 <= k < i ==> (#[trigger] items@[k])@ == item_text(self@.options[k]),
            decreases self.options.len() - i,
        {
            let o = &self.options[i];
            items.push(format_menu_item(o.key.as_str(), o.name.as_str(), o.description.as_str()));
            i += 1;
        }
        items
    }

    /// What the entry that the operator chose means.
    pub fn show(&self, selection: usize) -> (r: T)
        requires
            selection < self@.options.len(),
        ensures
            r == self@.options[selection as int].action,
    {
        self.options[selection].action
    }
}

/// What the operator chose in the main menu.
#[derive(Debug, Clone, Copy, PartialEq, Eq, Structural)]
pub enum MainMenuAction {
    Fe,
    Be,
    Exit,
}

/// What the operator chose among the coordination role's tools.
#[derive(Debug, Clone, Copy, PartialEq, Eq, Structural)]
pub enum FeToolAction {
    FeList,
    JmapDump,
    JmapHisto,
    Jstack,
    FeProfiler,
    TableInfo,
    RoutineLoad,
    Back,
}

/// What the operator chose among the tools for routine load jobs.
#[derive(Debug, Clone, Copy, PartialEq, Eq, Structural)]
pub enum RoutineLoadAction {
    GetJobId,
    ErrorCheck,
    Performance,
    Traffic,
    Back,
}

/// What the operator chose after a tool ran.
#[derive(Debug, Clone, Copy, PartialEq, Eq, Structural)]
pub enum PostExecutionAction {
    Continue,
    BackToMain,
    Exit,
}

/// A key that a menu answers to.
#[derive(Debug, Clone, Copy, PartialEq, Eq, Structural)]
pub enum MenuKey {
    Enter,
    ArrowUp,
    ArrowDown,
    /// A decimal digit that was typed.
    Digit(u8),
    /// Any other key.
    Other,
}

/// What a menu does after a key.
#[derive(Debug, Clone, Copy, PartialEq, Eq, Structural)]
pub enum MenuStep {
    /// The entry with this index is now marked.
    Marked(usize),
    /// The entry with this index was chosen.
    Chosen(usize),
}

/// What a menu of `len` entries does when `key` is pressed while the entry
/// `selection` is marked. Enter chooses the marked entry; the arrows move the
/// mark, round the ends; a digit marks the entry with that number, counted from
/// one, where there is one; any other key changes nothing.
pub open spec fn menu_step(selection: usize, len: usize, key: MenuKey) -> MenuStep {
    match key {
        MenuKey::Enter => MenuStep::Chosen(selection),
        MenuKey::ArrowUp => MenuStep::Marked(
            if selection == 0 {
                (len - 1) as usize
            } else {
                (selection - 1) as usize
            },
        ),
        MenuKey::ArrowDown => MenuStep::Marked(
            if selection == len - 1 {
                0
            } else {
                (selection + 1) as usize
            },
        ),
        MenuKey::Digit(d) => {
            let index = if d == 0 {
                0
            } else {
                d - 1
            };
            MenuStep::Marked(
                if index < len {
                    index as usize
                } else {
                    selection
                },
            )
        },
        MenuKey::Other => MenuStep::Marked(selection),
    }
}

/// One step of a menu: what it does when `key` is pressed.
pub fn show_interactive_menu(selection: usize, len: usize, key: MenuKey) -> (r: MenuStep)
    requires
        selection < len,
    ensures
        r == menu_step(selection, len, key),
        match r {
            MenuStep::Marked(i) => i < len,
            MenuStep::Chosen(i) => i < len,
        },
{
    match key {
        MenuKey::Enter => MenuStep::Chosen(selection),
        MenuKey::ArrowUp => MenuStep::Marked(
            if selection == 0 {
                len - 1
            } else {
                selection - 1
            },
        ),
        MenuKey::ArrowDown => MenuStep::Marked(
            if selection == len - 1 {
                0
            } else {
                selection + 1
            },
        ),
        MenuKey::Digit(d) => {
            let index: usize = if d == 0 {
                0
            } else {
                (d - 1) as usize
            };
            MenuStep::Marked(
                if index < len {
                    index
                } else {
                    selection
                },
            )
        },
        MenuKey::Other => MenuStep::Marked(selection),
    }
}

/// The main menu.
pub open spec fn main_menu_view() -> MenuView<MainMenuAction> {
    MenuView {
        step: 1,
        title: "Select service type"@,
        options: seq![
            entry(1, MainMenuAction::Fe, "FE"@, "Frontend operations"@),
            entry(2, MainMenuAction::Be, "BE"@, "Backend operations"@),
            entry(3, MainMenuAction::Exit, "Exit"@, "Exit the application"@),
        ],
    }
}

/// The menu of the coordination role's tools.
pub open spec fn fe_tools_menu_view() -> MenuView<FeToolAction> {
    MenuView {
        step: 2,
        title: "Select FE tool"@,
        options: seq![
            entry(
                1,
                FeToolAction::FeList,
                "fe-list"@,
                "List and select a FE host (IP) for this session"@,
            ),
            entry(2, FeToolAction::JmapDump, "jmap-dump"@, "Generate heap dump (.hprof)"@),
            entry(3, FeToolAction::JmapHisto, "jmap-histo"@, "Generate histogram (.log)"@),
            entry(4, FeToolAction::Jstack, "jstack"@, "Generate thread stack trace (.log)"@),
            entry(
                5,
                FeToolAction::FeProfiler,
                "fe-profiler"@,
                "Generate flame graph for FE performance analysis using async-profiler"@,
            ),
            entry(
                6,
                FeToolAction::TableInfo,
                "table-info"@,
                "Collect table and partition information"@,
            ),
            entry(7, FeToolAction::RoutineLoad, "Routine Load"@, "Routine Load management tools"@),
            entry(8, FeToolAction::Back, "← Back"@, "Return to main menu"@),
        ],
    }
}

/// The menu of the tools for routine load jobs.
pub open spec fn routine_load_menu_view() -> MenuView<RoutineLoadAction> {
    MenuView {
        step: 3,
        title: "Routine Load Tools"@,
        options: seq![
            entry(
                1,
                RoutineLoadAction::GetJobId,
                "Get Job ID"@,
                "List and select Routine Load jobs"@,
            ),
            entry(
                2,
                RoutineLoadAction::ErrorCheck,
                "Error Check"@,
                "Check for errors in selected Routine Load job"@,
            ),
            entry(
                3,
                RoutineLoadAction::Performance,
                "Performance Analysis"@,
                "Analyze per-commit rows/bytes/time from FE logs"@,
            ),
            entry(
                4,
                RoutineLoadAction::Traffic,
                "Traffic Monitor"@,
                "Aggregate per-minute loadedRows from FE logs"@,
            ),
            entry(5, RoutineLoadAction::Back, "← Back to FE Tools"@, "Return to FE tools menu"@),
        ],
    }
}

/// The menu that is shown after a tool ran.
pub open spec fn post_execution_menu_view(tool_name: Seq<char>) -> MenuView<PostExecutionAction> {
    MenuView {
        step: 4,
        title: tool_name + " completed - What's next?"@,
        options: seq![
            entry(1, PostExecutionAction::Continue, "Continue"@, "Run another tool"@),
            entry(
                2,
                PostExecutionAction::BackToMain,
                "← Back to Main"@,
                "Return to service selection"@,
            ),
            entry(3, PostExecutionAction::Exit, "Exit"@, "Exit the application"@),
        ],
    }
}

/// What the operator chose in the menu of the tools of a role.
#[derive(Debug, Clone, Copy, PartialEq, Eq, Structural)]
pub enum ToolSelection {
    /// The tool at this place of the list.
    Tool(usize),
    /// The way back to the main menu.
    Back,
    /// The way out of the console.
    Exit,
}

/// The menu of the tools of a role: an entry for each tool, then the way back
/// and the way out.
pub open spec fn tool_menu_view(step: u8, title: Seq<char>, tools: Seq<ToolKind>) -> MenuView<
    ToolSelection,
> {
    MenuView {
        step,
        title,
        options: Seq::new(
            tools.len() + 2,
            |i: int|
                if i < tools.len() {
                    entry(
                        (i + 1) as nat,
                        ToolSelection::Tool(i as usize),
                        tools[i].name_text(),
                        tools[i].description_text(),
                    )
                } else if i == tools.len() {
                    entry((i + 1) as nat, ToolSelection::Back, "← Back"@, "Return to main menu"@)
                } else {
                    entry((i + 1) as nat, ToolSelection::Exit, "Exit"@, "Exit the application"@)
                },
        ),
    }
}

/// The main menu.
pub fn main_menu() -> (r: Menu<MainMenuAction>)
    ensures
        r@ == main_menu_view(),
{
    let mut options: Vec<MenuOption<MainMenuAction>> = Vec::new();
    options.push(option_at(1, MainMenuAction::Fe, "FE", "Frontend operations"));
    options.push(option_at(2, MainMenuAction::Be, "BE", "Backend operations"));
    options.push(option_at(3, MainMenuAction::Exit, "Exit", "Exit the application"));
    let menu = Menu { step: 1, title: "Select service type".to_owned(), options };
    assert(menu@.options =~= main_menu_view().options);
    menu
}

/// The menu of the coordination role's tools.
pub fn fe_tools_menu() -> (r: Menu<FeToolAction>)
    ensures
        r@ == fe_tools_menu_view(),
{
    let mut options: Vec<MenuOption<FeToolAction>> = Vec::new();
    options.push(
        option_at(
            1,
            FeToolAction::FeList,
            "fe-list",
            "List and select a FE host (IP) for this session",
        ),
    );
    options.push(option_at(2, FeToolAction::JmapDump, "jmap-dump", "Generate heap dump (.hprof)"));
    options.push(option_at(3, FeToolAction::JmapHisto, "jmap-histo", "Generate histogram (.log)"));
    options.push(
        option_at(4, FeToolAction::Jstack, "jstack", "Generate thread stack trace (.log)"),
    );
    options.push(
        option_at(
            5,
            FeToolAction::FeProfiler,
            "fe-profiler",
            "Generate flame graph for FE performance analysis using async-profiler",
        ),
    );
    options.push(
        option_at(
            6,
            FeToolAction::TableInfo,
            "table-info",
            "Collect table and partition information",
        ),
    );
    options.push(
        option_at(7, FeToolAction::RoutineLoad, "Routine Load", "Routine Load management tools"),
    );
    options.push(option_at(8, FeToolAction::Back, "← Back", "Return to main menu"));
    let menu = Menu { step: 2, title: "Select FE tool".to_owned(), options };
    assert(menu@.options =~= fe_tools_menu_view().options);
    menu
}

/// The menu of the tools for routine load jobs.
pub fn routine_load_menu() -> (r: Menu<RoutineLoadAction>)
    ensures
        r@ == routine_load_menu_view(),
{
    let mut options: Vec<MenuOption<RoutineLoadAction>> = Vec::new();
    options.push(
        option_at(
            1,
            RoutineLoadAction::GetJobId,
            "Get Job ID",
            "List and select Routine Load jobs",
        ),
    );
    options.push(
        option_at(
            2,
            RoutineLoadAction::ErrorCheck,
            "Error Check",
            "Check for errors in selected Routine Load job",
        ),
    );
    options.push(
        option_at(
            3,
            RoutineLoadAction::Performance,
            "Performance Analysis",
            "Analyze per-commit rows/bytes/time from FE logs",
        ),
    );
    options.push(
        option_at(
            4,
            RoutineLoadAction::Traffic,
            "Traffic Monitor",
            "Aggregate per-minute loadedRows from FE logs",
        ),
    );
    options.push(
        option_at(5, RoutineLoadAction::Back, "← Back to FE Tools", "Return to FE tools menu"),
    );
    let menu = Menu { step: 3, title: "Routine Load Tools".to_owned(), options };
    assert(menu@.options =~= routine_load_menu_view().options);
    menu
}

/// The menu that is shown after a tool ran.
pub fn post_execution_menu(tool_name: &str) -> (r: Menu<PostExecutionAction>)
    ensures
        r@ == post_execution_menu_view(tool_name@),
{
    let mut options: Vec<MenuOption<PostExecutionAction>> = Vec::new();
    options.push(option_at(1, PostExecutionAction::Continue, "Continue", "Run another tool"));
    options.push(
        option_at(
            2,
            PostExecutionAction::BackToMain,
            "← Back to Main",
            "Return to service selection",
        ),
    );
    options.push(option_at(3, PostExecutionAction::Exit, "Exit", "Exit the application"));
    let menu = Menu { step: 4, title: post_execution_title(tool_name), options };
    assert(menu@.options =~= post_execution_menu_view(tool_name@).options);
    menu
}

/// The menu of the tools of a role. The list must leave room for two more
/// entries.
pub fn tool_menu(step: u8, title: &str, tools: &Vec<ToolKind>) -> (r: Menu<ToolSelection>)
    requires
        tools@.len() + 2 <= usize::MAX,
    ensures
        r@ == tool_menu_view(step, title@, tools@),
{
    let ghost want = tool_menu_view(step, title@, tools@).options;
    let mut options: Vec<MenuOption<ToolSelection>> = Vec::new();
    let mut i: usize = 0;
    while i < tools.len()
        invariant
            i <= tools.len(),
            tools@.len() + 2 <= usize::MAX,
            want == tool_menu_view(step, title@, tools@).options,
            options@.len() == i,
            forall|k: int| 0 <= k < i ==> (#[trigger] options@[k])@ == want[k],
        decreases tools.len() - i,
    {
        let name = tools[i].name();
        let description = tools[i].description();
        options.push(
            option_at(i + 1, ToolSelection::Tool(i), name.as_str(), description.as_str()),
        );
        i += 1;
    }
    options.push(option_at(i + 1, ToolSelection::Back, "← Back", "Return to main menu"));
    options.push(option_at(i + 2, ToolSelection::Exit, "Exit", "Exit the application"));
    let menu = Menu { step, title: title.to_owned(), options };
    assert(menu@.options =~= want);
    menu
}

/// The action behind an entry of the main menu.
pub open spec fn main_menu_action(choice: usize) -> MainMenuAction {
    if choice == 0 {
        MainMenuAction::Fe
    } else if choice == 1 {
        MainMenuAction::Be
    } else {
        MainMenuAction::Exit
    }
}

/// The action behind the entry that the operator chose in the main menu.
pub fn show_main_menu(choice: usize) -> (r: MainMenuAction)
    requires
        choice < 3,
    ensures
        r == main_menu_action(choice),
{
    main_menu().show(choice)
}

/// The action behind the entry that the operator chose among the coordination
/// role's tools.
pub fn show_fe_tools_menu(choice: usize) -> (r: FeToolAction)
    requires
        choice < 8,
    ensures
        r == match choice {
            0 => FeToolAction::FeList,
            1 => FeToolAction::JmapDump,
            2 => FeToolAction::JmapHisto,
            3 => FeToolAction::Jstack,
            4 => FeToolAction::FeProfiler,
            5 => FeToolAction::TableInfo,
            6 => FeToolAction::RoutineLoad,
            _ => FeToolAction::Back,
        },
{
    fe_tools_menu().show(choice)
}

/// The action behind the entry that the operator chose among the tools for
/// routine load jobs.
pub fn show_routine_load_menu(choice: usize) -> (r: RoutineLoadAction)
    requires
        choice < 5,
    ensures
        r == match choice {
            0 => RoutineLoadAction::GetJobId,
            1 => RoutineLoadAction::ErrorCheck,
            2 => RoutineLoadAction::Performance,
            3 => RoutineLoadAction::Traffic,
            _ => RoutineLoadAction::Back,
        },
{
    routine_load_menu().show(choice)
}

/// The action behind the entry that the operator chose after a tool ran.
pub fn show_post_execution_menu(choice: usize) -> (r: PostExecutionAction)
    requires
        choice < 3,
    ensures
        r == match choice {
            0 => PostExecutionAction::Continue,
            1 => PostExecutionAction::BackToMain,
            _ => PostExecutionAction::Exit,
        },
{
    post_execution_menu("").show(choice)
}

/// What the entry that the operator chose in the menu of `count` tools means:
/// a tool, the way back behind the tools, or the way out behind that.
pub fn show_tool_selection_menu(count: usize, selection: usize) -> (r: ToolSelection)
    ensures
        r == if selection < count {
            ToolSelection::Tool(selection)
        } else if selection == count {
            ToolSelection::Back
        } else {
            ToolSelection::Exit
        },
{
    if selection < count {
        ToolSelection::Tool(selection)
    } else if selection == count {
        ToolSelection::Back
    } else {
        ToolSelection::Exit
    }
}

/// The heading of the menu that is shown after a tool ran.
pub fn post_execution_title(tool_name: &str) -> (r: String)
    ensures
        r@ == tool_name@ + " completed - What's next?"@,
{
    crate::text::concat(tool_name, " completed - What's next?")
}

/// Whether the answer to a yes-or-no question is yes: the first entry.
pub fn ask_continue(selection: usize) -> (r: bool)
    ensures
        r == (selection == 0),
{
    selection == 0
}

} // verus!
