//! The interactive front end as a state machine: each key press or background message
//! gives the next state and the outside work (listing a directory, scanning, generating,
//! asking the assistant) that the caller performs and reports back.
use vstd::prelude::*;
use vstd::view::View as ModelView;

use crate::ai::ChatMessage;
use crate::migration::types::MigrationResult;
use crate::terraform::types::PassthroughBlock;
use crate::text::{chars_of, ends_with, push_char, push_str, starts_with, string_of, trim, trim_v};
use crate::text_sort::{ins_by, isort_by, lemma_ins_by_split, lex_lt_exec};

verus! {

/// The screen that is shown.
#[derive(Debug, Clone, Copy, PartialEq, Eq, Structural)]
pub enum View {
    Splash,
    FileBrowser,
    Scanner,
    Resources,
    Generator,
    DiffReview,
    TodoReview,
    Chat,
    Pricing,
}

/// The step of the generation dialog.
#[derive(Debug, Clone, Copy, PartialEq, Eq, Structural)]
pub enum GenStep {
    AskZone,
    AskOutputDir,
    Generating,
    Done,
}

/// Messages that background work sends to the front end.
pub enum AppMessage {
    FileFound(String),
    ScanComplete(Vec<MigrationResult>, Vec<PassthroughBlock>),
    /// A line of the generation log.
    GenerateLog(String),
    /// Generation finished: the number of files written and the resolved HCL of each
    /// `(resource type, resource name)`.
    GenerateDone(usize, Vec<((String, String), String)>),
    AiSuggestion(usize, String),
    AiError(usize, String),
    ChatResponse(String),
    ChatError(String),
    Error(String),
}

/// A key press, as far as the screens tell keys apart.
#[derive(Debug, Clone, Copy, PartialEq, Eq, Structural)]
pub enum Key {
    Char(char),
    Enter,
    Esc,
    Backspace,
    Tab,
    BackTab,
    Up,
    Down,
    Left,
    Right,
    Other,
}

/// Where a TODO placeholder of the output stands in its review.
#[derive(Debug, Clone, Copy, PartialEq, Eq, Structural)]
pub enum TodoStatus {
    Pending,
    Loading,
    Resolved,
    Skipped,
}

/// A TODO placeholder found in the generated files: where it is, its surrounding lines,
/// and its review state.
#[derive(Debug, Clone)]
pub struct TodoItem {
    pub file: String,
    pub line_no: u64,
    pub line_content: String,
    pub placeholder: String,
    pub context: Vec<String>,
    pub status: TodoStatus,
    pub ai_suggestion: Option<String>,
    pub resolution: Option<String>,
}

/// Outside work that a key press or message asks for.
#[derive(Debug, Clone)]
pub enum Action {
    /// Nothing to do outside.
    Idle,
    /// List the current directory of the file browser again.
    ListDir,
    /// Open the entry of this name of the current directory (`[..]`: its parent).
    OpenDir(String),
    /// Open the parent of the current directory.
    OpenParent,
    /// Scan this directory for Terraform files and map them.
    StartScan(String),
    /// Generate the output into `output_dir` for `zone`, copying other files of `source_dir`.
    Generate { output_dir: String, zone: String, source_dir: Option<String> },
    /// Collect the TODO placeholders of the generated files in this directory.
    ScanTodos(String),
    /// Compute the prices of the generated resources.
    ComputePricing,
    /// Read the generated files and enter the assistant chat.
    EnterChat,
    /// Ask the assistant for a replacement of the TODO at this index.
    RequestSuggestion(usize),
    /// Write `resolution` in place of the TODO at `idx` in the files of `output_dir`.
    ApplyResolution { idx: usize, output_dir: String, resolution: String },
    /// Send the conversation to the assistant.
    SendChat,
}

pub open spec fn opt_str_view(o: Option<String>) -> Option<Seq<char>> {
    match o {
        Some(s) => Some(s@),
        None => None,
    }
}

/// A TODO item as plain values.
#[verifier::ext_equal]
pub struct TodoModel {
    pub file: Seq<char>,
    pub line_no: u64,
    pub line_content: Seq<char>,
    pub placeholder: Seq<char>,
    pub context: Seq<Seq<char>>,
    pub status: TodoStatus,
    pub ai_suggestion: Option<Seq<char>>,
    pub resolution: Option<Seq<char>>,
}

impl ModelView for TodoItem {
    type V = TodoModel;

    open spec fn view(&self) -> TodoModel {
        TodoModel {
            file: self.file@,
            line_no: self.line_no,
            line_content: self.line_content@,
            placeholder: self.placeholder@,
            context: self.context@.map_values(|s: String| s@),
            status: self.status,
            ai_suggestion: opt_str_view(self.ai_suggestion),
            resolution: opt_str_view(self.resolution),
        }
    }
}

pub open spec fn todos_view(v: Seq<TodoItem>) -> Seq<TodoModel> {
    v.map_values(|t: TodoItem| t@)
}

pub open spec fn strs_view(v: Seq<String>) -> Seq<Seq<char>> {
    v.map_values(|s: String| s@)
}

pub open spec fn entries_view(v: Seq<(String, bool)>) -> Seq<(Seq<char>, bool)> {
    v.map_values(|e: (String, bool)| (e.0@, e.1))
}

pub open spec fn chat_view(v: Seq<ChatMessage>) -> Seq<(bool, Seq<char>)> {
    v.map_values(|m: ChatMessage| (m.is_user, m.content@))
}

pub open spec fn resolved_map_view(v: Seq<((String, String), String)>) -> Seq<((Seq<char>, Seq<char>), Seq<char>)> {
    v.map_values(|e: ((String, String), String)| ((e.0.0@, e.0.1@), e.1@))
}

/// The front end's state. The zones offered for generation are given when it starts.
pub struct App {
    pub view: View,
    pub should_quit: bool,
    pub tick: u64,
    pub input_buf: String,
    pub scan_path: Option<String>,
    pub output_path: Option<String>,
    pub scan_files: Vec<String>,
    pub scan_current: Option<String>,
    pub scan_complete: bool,
    pub resources: Vec<String>,
    pub migration_results: Vec<MigrationResult>,
    pub passthroughs: Vec<PassthroughBlock>,
    /// The selected row of the resource table.
    pub table_selected: Option<usize>,
    /// Whether the right preview panel has focus (true) or the left table (false).
    pub resources_focus_preview: bool,
    pub preview_scroll: usize,
    pub gen_step: GenStep,
    pub target_zone: String,
    pub zone_idx: usize,
    pub gen_log: Vec<String>,
    pub is_generating: bool,
    pub gen_complete: bool,
    pub gen_complete_tick: u64,
    pub gen_files_count: usize,
    pub resolved_hcl_map: Vec<((String, String), String)>,
    pub fb_cwd: String,
    /// The entries of the file browser: (name, is a directory).
    pub fb_entries: Vec<(String, bool)>,
    pub fb_selected: Option<usize>,
    pub diff_idx: usize,
    pub diff_scroll: usize,
    pub todos: Vec<TodoItem>,
    pub todo_idx: usize,
    pub todo_input: String,
    pub todo_input_active: bool,
    pub api_key: Option<String>,
    pub chat_messages: Vec<ChatMessage>,
    pub chat_input: String,
    pub chat_scroll: usize,
    /// The largest chat scroll offset of the last drawing.
    pub chat_scroll_max: u16,
    pub chat_loading: bool,
    /// Concatenated content of the generated .tf files, built on entering the chat view.
    pub chat_tf_context: String,
    pub pricing_scroll: usize,
    /// How many priced entries there are.
    pub pricing_count: usize,
    /// The slugs of the zones offered for generation.
    pub zones: Vec<String>,
}

/// The state as plain values.
#[verifier::ext_equal]
pub struct AppModel {
    pub view: View,
    pub should_quit: bool,
    pub tick: u64,
    pub input_buf: Seq<char>,
    pub scan_path: Option<Seq<char>>,
    pub output_path: Option<Seq<char>>,
    pub scan_files: Seq<Seq<char>>,
    pub scan_current: Option<Seq<char>>,
    pub scan_complete: bool,
    pub resources: Seq<Seq<char>>,
    pub migration_results: Seq<MigrationResult>,
    pub passthroughs: Seq<PassthroughBlock>,
    pub table_selected: Option<usize>,
    pub resources_focus_preview: bool,
    pub preview_scroll: usize,
    pub gen_step: GenStep,
    pub target_zone: Seq<char>,
    pub zone_idx: usize,
    pub gen_log: Seq<Seq<char>>,
    pub is_generating: bool,
    pub gen_complete: bool,
    pub gen_complete_tick: u64,
    pub gen_files_count: usize,
    pub resolved_hcl_map: Seq<((Seq<char>, Seq<char>), Seq<char>)>,
    pub fb_cwd: Seq<char>,
    pub fb_entries: Seq<(Seq<char>, bool)>,
    pub fb_selected: Option<usize>,
    pub diff_idx: usize,
    pub diff_scroll: usize,
    pub todos: Seq<TodoModel>,
    pub todo_idx: usize,
    pub todo_input: Seq<char>,
    pub todo_input_active: bool,
    pub api_key: Option<Seq<char>>,
    pub chat_messages: Seq<(bool, Seq<char>)>,
    pub chat_input: Seq<char>,
    pub chat_scroll: usize,
    pub chat_scroll_max: u16,
    pub chat_loading: bool,
    pub chat_tf_context: Seq<char>,
    pub pricing_scroll: usize,
    pub pricing_count: usize,
    pub zones: Seq<Seq<char>>,
}

impl ModelView for App {
    type V = AppModel;

    open spec fn view(&self) -> AppModel {
        AppModel {
            view: self.view,
            should_quit: self.should_quit,
            tick: self.tick,
            input_buf: self.input_buf@,
            scan_path: opt_str_view(self.scan_path),
            output_path: opt_str_view(self.output_path),
            scan_files: strs_view(self.scan_files@),
            scan_current: opt_str_view(self.scan_current),
            scan_complete: self.scan_complete,
            resources: strs_view(self.resources@),
            migration_results: self.migration_results@,
            passthroughs: self.passthroughs@,
            table_selected: self.table_selected,
            resources_focus_preview: self.resources_focus_preview,
            preview_scroll: self.preview_scroll,
            gen_step: self.gen_step,
            target_zone: self.target_zone@,
            zone_idx: self.zone_idx,
            gen_log: strs_view(self.gen_log@),
            is_generating: self.is_generating,
            gen_complete: self.gen_complete,
            gen_complete_tick: self.gen_complete_tick,
            gen_files_count: self.gen_files_count,
            resolved_hcl_map: resolved_map_view(self.resolved_hcl_map@),
            fb_cwd: self.fb_cwd@,
            fb_entries: entries_view(self.fb_entries@),
            fb_selected: self.fb_selected,
            diff_idx: self.diff_idx,
            diff_scroll: self.diff_scroll,
            todos: todos_view(self.todos@),
            todo_idx: self.todo_idx,
            todo_input: self.todo_input@,
            todo_input_active: self.todo_input_active,
            api_key: opt_str_view(self.api_key),
            chat_messages: chat_view(self.chat_messages@),
            chat_input: self.chat_input@,
            chat_scroll: self.chat_scroll,
            chat_scroll_max: self.chat_scroll_max,
            chat_loading: self.chat_loading,
            chat_tf_context: self.chat_tf_context@,
            pricing_scroll: self.pricing_scroll,
            pricing_count: self.pricing_count,
            zones: strs_view(self.zones@),
        }
    }
}

/// The first zone with slug `slug`, else the first zone.
pub open spec fn zone_index(zones: Seq<Seq<char>>, slug: Seq<char>, i: int) -> usize
    decreases zones.len() - i,
{
    if i < 0 || i >= zones.len() {
        0
    } else if zones[i] == slug {
        i as usize
    } else {
        zone_index(zones, slug, i + 1)
    }
}

fn find_zone_idx(zones: &Vec<String>, slug: &str) -> (r: usize)
    ensures
        r == zone_index(strs_view(zones@), slug@, 0),
{
    let ghost zv = strs_view(zones@);
    let sv = chars_of(slug);
    let mut i: usize = 0;
    while i < zones.len()
        invariant
            i <= zones@.len(),
            zv == strs_view(zones@),
            sv@ == slug@,
            zone_index(zv, slug@, 0) == zone_index(zv, slug@, i as int),
        decreases zones@.len() - i,
    {
        assert(zv[i as int] == zones@[i as int]@);
        if crate::text::seq_eq(&chars_of(zones[i].as_str()), &sv) {
            return i;
        }
        i += 1;
    }
    0
}

/// The state on start: the splash screen, zone `de-fra1` preselected.
pub open spec fn initial_model(zones: Seq<Seq<char>>, api_key: Option<Seq<char>>, cwd: Seq<char>) -> AppModel {
    AppModel {
        view: View::Splash,
        should_quit: false,
        tick: 0,
        input_buf: seq![],
        scan_path: None,
        output_path: None,
        scan_files: seq![],
        scan_current: None,
        scan_complete: false,
        resources: seq![],
        migration_results: seq![],
        passthroughs: seq![],
        table_selected: Some(0),
        resources_focus_preview: false,
        preview_scroll: 0,
        gen_step: GenStep::AskZone,
        target_zone: "de-fra1"@,
        zone_idx: zone_index(zones, "de-fra1"@, 0),
        gen_log: seq![],
        is_generating: false,
        gen_complete: false,
        gen_complete_tick: 0,
        gen_files_count: 0,
        resolved_hcl_map: seq![],
        fb_cwd: cwd,
        fb_entries: seq![],
        fb_selected: None,
        diff_idx: 0,
        diff_scroll: 0,
        todos: seq![],
        todo_idx: 0,
        todo_input: seq![],
        todo_input_active: false,
        api_key: api_key,
        chat_messages: seq![],
        chat_input: seq![],
        chat_scroll: 9999,
        chat_scroll_max: 0,
        chat_loading: false,
        chat_tf_context: seq![],
        pricing_scroll: 0,
        pricing_count: 0,
        zones: zones,
    }
}

impl App {
    /// The state on start, offering `zones`, with the assistant's key if there is one and
    /// the file browser in `cwd`.
    pub fn new(zones: Vec<String>, api_key: Option<String>, cwd: String) -> (r: Self)
        ensures
            r@ == initial_model(strs_view(zones@), opt_str_view(api_key), cwd@),
    {
        let zone_idx = find_zone_idx(&zones, "de-fra1");
        let r = App {
            view: View::Splash,
            should_quit: false,
            tick: 0,
            input_buf: String::new(),
            scan_path: None,
            output_path: None,
            scan_files: Vec::new(),
            scan_current: None,
            scan_complete: false,
            resources: Vec::new(),
            migration_results: Vec::new(),
            passthroughs: Vec::new(),
            table_selected: Some(0),
            resources_focus_preview: false,
            preview_scroll: 0,
            gen_step: GenStep::AskZone,
            target_zone: String::from_str("de-fra1"),
            zone_idx,
            gen_log: Vec::new(),
            is_generating: false,
            gen_complete: false,
            gen_complete_tick: 0,
            gen_files_count: 0,
            resolved_hcl_map: Vec::new(),
            fb_cwd: cwd,
            fb_entries: Vec::new(),
            fb_selected: None,
            diff_idx: 0,
            diff_scroll: 0,
            todos: Vec::new(),
            todo_idx: 0,
            todo_input: String::new(),
            todo_input_active: false,
            api_key,
            chat_messages: Vec::new(),
            chat_input: String::new(),
            chat_scroll: 9999,
            chat_scroll_max: 0,
            chat_loading: false,
            chat_tf_context: String::new(),
            pricing_scroll: 0,
            pricing_count: 0,
            zones,
        };
        assert(r@ =~= initial_model(strs_view(r.zones@), opt_str_view(r.api_key), r.fb_cwd@));
        r
    }
}

/// Outside work, as plain values.
pub enum ActionModel {
    Idle,
    ListDir,
    OpenDir(Seq<char>),
    OpenParent,
    StartScan(Seq<char>),
    Generate(Seq<char>, Seq<char>, Option<Seq<char>>),
    ScanTodos(Seq<char>),
    ComputePricing,
    EnterChat,
    RequestSuggestion(usize),
    ApplyResolution(usize, Seq<char>, Seq<char>),
    SendChat,
}

pub open spec fn action_view(a: Action) -> ActionModel {
    match a {
        Action::Idle => ActionModel::Idle,
        Action::ListDir => ActionModel::ListDir,
        Action::OpenDir(n) => ActionModel::OpenDir(n@),
        Action::OpenParent => ActionModel::OpenParent,
        Action::StartScan(p) => ActionModel::StartScan(p@),
        Action::Generate { output_dir, zone, source_dir } => ActionModel::Generate(output_dir@, zone@, opt_str_view(source_dir)),
        Action::ScanTodos(d) => ActionModel::ScanTodos(d@),
        Action::ComputePricing => ActionModel::ComputePricing,
        Action::EnterChat => ActionModel::EnterChat,
        Action::RequestSuggestion(i) => ActionModel::RequestSuggestion(i),
        Action::ApplyResolution { idx, output_dir, resolution } => ActionModel::ApplyResolution(idx, output_dir@, resolution@),
        Action::SendChat => ActionModel::SendChat,
    }
}

/// `s` without its last character, if it has one (`String::pop`).
pub open spec fn pop(s: Seq<char>) -> Seq<char> {
    if s.len() > 0 { s.drop_last() } else { s }
}

fn pop_string(s: &String) -> (r: String)
    ensures
        r@ == pop(s@),
{
    let v = chars_of(s.as_str());
    if v.len() == 0 {
        String::new()
    } else {
        let w = crate::text::slice_of(&v, 0, v.len() - 1);
        assert(w@ =~= v@.drop_last());
        string_of(&w)
    }
}

pub open spec fn is_quit_char(c: char) -> bool {
    c == 'q' || c == 'Q'
}

/// The splash screen: typing a path to scan; `f` opens the file browser and `q` quits
/// while nothing is typed; Esc always quits.
pub open spec fn splash_key(m: AppModel, k: Key) -> (AppModel, ActionModel) {
    match k {
        Key::Esc => (AppModel { should_quit: true, ..m }, ActionModel::Idle),
        Key::Char(c) => if is_quit_char(c) && m.input_buf.len() == 0 {
            (AppModel { should_quit: true, ..m }, ActionModel::Idle)
        } else if (c == 'f' || c == 'F') && m.input_buf.len() == 0 {
            (AppModel { view: View::FileBrowser, ..m }, ActionModel::ListDir)
        } else {
            (AppModel { input_buf: m.input_buf.push(c), ..m }, ActionModel::Idle)
        },
        Key::Backspace => (AppModel { input_buf: pop(m.input_buf), ..m }, ActionModel::Idle),
        Key::Enter => if m.input_buf.len() > 0 {
            let p = trim(m.input_buf);
            (AppModel { scan_path: Some(p), input_buf: seq![], view: View::Scanner, ..m }, ActionModel::StartScan(p))
        } else {
            (m, ActionModel::Idle)
        },
        _ => (m, ActionModel::Idle),
    }
}

/// The previous entry of a list of `len`, wrapping to the last.
pub open spec fn wrap_prev(cur: usize, len: usize) -> usize {
    if cur == 0 { (len - 1) as usize } else { (cur - 1) as usize }
}

/// The next entry of a list of `len`, wrapping to the first.
pub open spec fn wrap_next(cur: usize, len: usize) -> usize {
    if cur + 1 >= len { 0 } else { (cur + 1) as usize }
}

pub open spec fn sel_or_zero(s: Option<usize>) -> usize {
    match s {
        Some(i) => i,
        None => 0,
    }
}

/// The file browser: moving through the entries, opening a directory, going up, or
/// scanning the current directory.
pub open spec fn filebrowser_key(m: AppModel, k: Key) -> (AppModel, ActionModel) {
    let len = m.fb_entries.len();
    let up = k == Key::Up || k == Key::Char('k');
    let down = k == Key::Down || k == Key::Char('j');
    if k == Key::Char('q') || k == Key::Char('Q') {
        (AppModel { should_quit: true, ..m }, ActionModel::Idle)
    } else if k == Key::Esc {
        (AppModel { view: View::Splash, ..m }, ActionModel::Idle)
    } else if up {
        if len > 0 { (AppModel { fb_selected: Some(wrap_prev(sel_or_zero(m.fb_selected), len as usize)), ..m }, ActionModel::Idle) } else { (m, ActionModel::Idle) }
    } else if down {
        if len > 0 { (AppModel { fb_selected: Some(wrap_next(sel_or_zero(m.fb_selected), len as usize)), ..m }, ActionModel::Idle) } else { (m, ActionModel::Idle) }
    } else if k == Key::Enter {
        match m.fb_selected {
            Some(i) => if i < len && m.fb_entries[i as int].1 { (m, ActionModel::OpenDir(m.fb_entries[i as int].0)) } else { (m, ActionModel::Idle) },
            None => (m, ActionModel::Idle),
        }
    } else if k == Key::Backspace {
        (m, ActionModel::OpenParent)
    } else if k == Key::Char('s') || k == Key::Char('S') {
        (AppModel { scan_path: Some(m.fb_cwd), view: View::Scanner, ..m }, ActionModel::StartScan(m.fb_cwd))
    } else {
        (m, ActionModel::Idle)
    }
}

/// The resource table: `g` or Tab opens the generator; the arrows move through the table
/// or, when the preview has focus, scroll it.
pub open spec fn resources_key(m: AppModel, k: Key) -> (AppModel, ActionModel) {
    let n = m.migration_results.len();
    let last: usize = if n == 0 { 0 } else { (n - 1) as usize };
    if k == Key::Char('q') || k == Key::Char('Q') {
        (AppModel { should_quit: true, ..m }, ActionModel::Idle)
    } else if k == Key::Char('g') || k == Key::Char('G') || k == Key::Tab {
        (AppModel {
            view: View::Generator,
            input_buf: seq![],
            output_path: None,
            gen_step: GenStep::AskZone,
            gen_complete: false,
            zone_idx: zone_index(m.zones, m.target_zone, 0),
            ..m
        }, ActionModel::Idle)
    } else if (k == Key::Right || k == Key::Char('l')) && !m.resources_focus_preview {
        (AppModel { resources_focus_preview: true, ..m }, ActionModel::Idle)
    } else if (k == Key::Left || k == Key::Char('h')) && m.resources_focus_preview {
        (AppModel { resources_focus_preview: false, ..m }, ActionModel::Idle)
    } else if (k == Key::Down || k == Key::Char('j')) && m.resources_focus_preview {
        (AppModel { preview_scroll: if m.preview_scroll == usize::MAX { usize::MAX } else { (m.preview_scroll + 1) as usize }, ..m }, ActionModel::Idle)
    } else if (k == Key::Up || k == Key::Char('k')) && m.resources_focus_preview {
        (AppModel { preview_scroll: if m.preview_scroll == 0 { 0 } else { (m.preview_scroll - 1) as usize }, ..m }, ActionModel::Idle)
    } else if k == Key::Down || k == Key::Char('j') {
        let i: usize = match m.table_selected {
            Some(i) => if i >= last { 0 } else { (i + 1) as usize },
            None => 0,
        };
        (AppModel { table_selected: Some(i), preview_scroll: 0, resources_focus_preview: false, ..m }, ActionModel::Idle)
    } else if k == Key::Up || k == Key::Char('k') {
        let i: usize = match m.table_selected {
            Some(i) => if i == 0 { last } else { (i - 1) as usize },
            None => 0,
        };
        (AppModel { table_selected: Some(i), preview_scroll: 0, resources_focus_preview: false, ..m }, ActionModel::Idle)
    } else {
        (m, ActionModel::Idle)
    }
}

/// The scanner screen: only `q` (quit) does something.
pub open spec fn scanner_key(m: AppModel, k: Key) -> (AppModel, ActionModel) {
    if k == Key::Char('q') || k == Key::Char('Q') {
        (AppModel { should_quit: true, ..m }, ActionModel::Idle)
    } else {
        (m, ActionModel::Idle)
    }
}

/// The price list: scrolling, capped at its last entry.
pub open spec fn pricing_key(m: AppModel, k: Key) -> (AppModel, ActionModel) {
    let count = m.pricing_count;
    if k == Key::Char('q') || k == Key::Char('Q') {
        (AppModel { should_quit: true, ..m }, ActionModel::Idle)
    } else if k == Key::Esc || k == Key::Tab || k == Key::BackTab {
        (AppModel { view: View::Generator, ..m }, ActionModel::Idle)
    } else if k == Key::Up || k == Key::Char('k') {
        (AppModel { pricing_scroll: if m.pricing_scroll == 0 { 0 } else { (m.pricing_scroll - 1) as usize }, ..m }, ActionModel::Idle)
    } else if k == Key::Down || k == Key::Char('j') {
        if count > 0 {
            let up: int = if m.pricing_scroll == usize::MAX { usize::MAX as int } else { m.pricing_scroll + 1 };
            (AppModel { pricing_scroll: if up < count - 1 { up as usize } else { (count - 1) as usize }, ..m }, ActionModel::Idle)
        } else {
            (m, ActionModel::Idle)
        }
    } else {
        (m, ActionModel::Idle)
    }
}

/// The side-by-side diff: moving between resources (wrapping) and scrolling.
pub open spec fn diff_key(m: AppModel, k: Key) -> (AppModel, ActionModel) {
    let total = m.migration_results.len();
    if k == Key::Char('q') || k == Key::Char('Q') {
        (AppModel { should_quit: true, ..m }, ActionModel::Idle)
    } else if k == Key::Esc || k == Key::Backspace {
        (AppModel { view: View::Generator, ..m }, ActionModel::Idle)
    } else if k == Key::Left || k == Key::Char('h') || k == Key::Char('H') {
        if total > 0 { (AppModel { diff_idx: wrap_prev(m.diff_idx, total as usize), diff_scroll: 0, ..m }, ActionModel::Idle) } else { (m, ActionModel::Idle) }
    } else if k == Key::Right || k == Key::Char('l') || k == Key::Char('L') {
        if total > 0 { (AppModel { diff_idx: ((m.diff_idx + 1) % (total as int)) as usize, diff_scroll: 0, ..m }, ActionModel::Idle) } else { (m, ActionModel::Idle) }
    } else if k == Key::Up || k == Key::Char('k') || k == Key::Char('K') {
        (AppModel { diff_scroll: if m.diff_scroll == 0 { 0 } else { (m.diff_scroll - 1) as usize }, ..m }, ActionModel::Idle)
    } else if k == Key::Down || k == Key::Char('j') || k == Key::Char('J') {
        (AppModel { diff_scroll: if m.diff_scroll == usize::MAX { usize::MAX } else { (m.diff_scroll + 1) as usize }, ..m }, ActionModel::Idle)
    } else {
        (m, ActionModel::Idle)
    }
}

fn is_empty_str(s: &String) -> (r: bool)
    ensures
        r == (s@.len() == 0),
{
    chars_of(s.as_str()).len() == 0
}

fn sat_inc(x: usize) -> (r: usize)
    ensures
        r == if x == usize::MAX { usize::MAX } else { (x + 1) as usize },
{
    if x == usize::MAX { x } else { x + 1 }
}

fn sat_dec(x: usize) -> (r: usize)
    ensures
        r == if x == 0 { 0 } else { (x - 1) as usize },
{
    if x == 0 { 0 } else { x - 1 }
}

impl App {
    /// A key on the splash screen.
    pub fn handle_splash_key(&mut self, code: Key) -> (a: Action)
        ensures
            final(self)@ == splash_key(old(self)@, code).0,
            action_view(a) == splash_key(old(self)@, code).1,
    {
        match code {
            Key::Esc => {
                self.should_quit = true;
                Action::Idle
            },
            Key::Char(c) => {
                let empty = is_empty_str(&self.input_buf);
                if (c == 'q' || c == 'Q') && empty {
                    self.should_quit = true;
                    Action::Idle
                } else if (c == 'f' || c == 'F') && empty {
                    self.view = View::FileBrowser;
                    Action::ListDir
                } else {
                    push_char(&mut self.input_buf, c);
                    Action::Idle
                }
            },
            Key::Backspace => {
                self.input_buf = pop_string(&self.input_buf);
                Action::Idle
            },
            Key::Enter => {
                if !is_empty_str(&self.input_buf) {
                    let p = string_of(&trim_v(&chars_of(self.input_buf.as_str())));
                    self.scan_path = Some(string_of(&chars_of(p.as_str())));
                    self.input_buf = String::new();
                    self.view = View::Scanner;
                    Action::StartScan(p)
                } else {
                    Action::Idle
                }
            },
            _ => Action::Idle,
        }
    }

    /// A key in the file browser.
    #[verifier::rlimit(60)]
    pub fn handle_filebrowser_key(&mut self, code: Key) -> (a: Action)
        ensures
            final(self)@ == filebrowser_key(old(self)@, code).0,
            action_view(a) == filebrowser_key(old(self)@, code).1,
    {
        let len = self.fb_entries.len();
        let cur = match self.fb_selected { Some(i) => i, None => 0 };
        if code == Key::Char('q') || code == Key::Char('Q') {
            self.should_quit = true;
            Action::Idle
        } else if code == Key::Esc {
            self.view = View::Splash;
            Action::Idle
        } else if code == Key::Up || code == Key::Char('k') {
            if len > 0 {
                self.fb_selected = Some(if cur == 0 { len - 1 } else { cur - 1 });
            }
            Action::Idle
        } else if code == Key::Down || code == Key::Char('j') {
            if len > 0 {
                self.fb_selected = Some(if cur >= len - 1 { 0 } else { cur + 1 });
            }
            Action::Idle
        } else if code == Key::Enter {
            match self.fb_selected {
                Some(i) => {
                    if i < len && self.fb_entries[i].1 {
                        assert(entries_view(self.fb_entries@)[i as int] == (self.fb_entries@[i as int].0@, self.fb_entries@[i as int].1));
                        Action::OpenDir(string_of(&chars_of(self.fb_entries[i].0.as_str())))
                    } else {
                        Action::Idle
                    }
                },
                None => Action::Idle,
            }
        } else if code == Key::Backspace {
            Action::OpenParent
        } else if code == Key::Char('s') || code == Key::Char('S') {
            self.scan_path = Some(string_of(&chars_of(self.fb_cwd.as_str())));
            self.view = View::Scanner;
            Action::StartScan(string_of(&chars_of(self.fb_cwd.as_str())))
        } else {
            Action::Idle
        }
    }

    /// A key on the scanner screen.
    pub fn handle_scanner_key(&mut self, code: Key) -> (a: Action)
        ensures
            final(self)@ == scanner_key(old(self)@, code).0,
            action_view(a) == scanner_key(old(self)@, code).1,
    {
        if code == Key::Char('q') || code == Key::Char('Q') {
            self.should_quit = true;
        }
        Action::Idle
    }

    /// A key on the resource table.
    #[verifier::rlimit(80)]
    pub fn handle_resources_key(&mut self, code: Key) -> (a: Action)
        ensures
            final(self)@ == resources_key(old(self)@, code).0,
            action_view(a) == resources_key(old(self)@, code).1,
    {
        let n = self.migration_results.len();
        let last: usize = if n == 0 { 0 } else { n - 1 };
        if code == Key::Char('q') || code == Key::Char('Q') {
            self.should_quit = true;
        } else if code == Key::Char('g') || code == Key::Char('G') || code == Key::Tab {
            self.view = View::Generator;
            self.input_buf = String::new();
            self.output_path = None;
            self.gen_step = GenStep::AskZone;
            self.gen_complete = false;
            self.zone_idx = find_zone_idx(&self.zones, self.target_zone.as_str());
        } else if (code == Key::Right || code == Key::Char('l')) && !self.resources_focus_preview {
            self.resources_focus_preview = true;
        } else if (code == Key::Left || code == Key::Char('h')) && self.resources_focus_preview {
            self.resources_focus_preview = false;
        } else if (code == Key::Down || code == Key::Char('j')) && self.resources_focus_preview {
            self.preview_scroll = sat_inc(self.preview_scroll);
        } else if (code == Key::Up || code == Key::Char('k')) && self.resources_focus_preview {
            self.preview_scroll = sat_dec(self.preview_scroll);
        } else if code == Key::Down || code == Key::Char('j') {
            let i = match self.table_selected {
                Some(i) => if i >= last { 0 } else { i + 1 },
                None => 0,
            };
            self.table_selected = Some(i);
            self.preview_scroll = 0;
            self.resources_focus_preview = false;
        } else if code == Key::Up || code == Key::Char('k') {
            let i = match self.table_selected {
                Some(i) => if i == 0 { last } else { i - 1 },
                None => 0,
            };
            self.table_selected = Some(i);
            self.preview_scroll = 0;
            self.resources_focus_preview = false;
        }
        Action::Idle
    }

    /// A key on the price list.
    pub fn handle_pricing_key(&mut self, code: Key) -> (a: Action)
        ensures
            final(self)@ == pricing_key(old(self)@, code).0,
            action_view(a) == pricing_key(old(self)@, code).1,
    {
        let count = self.pricing_count;
        if code == Key::Char('q') || code == Key::Char('Q') {
            self.should_quit = true;
        } else if code == Key::Esc || code == Key::Tab || code == Key::BackTab {
            self.view = View::Generator;
        } else if code == Key::Up || code == Key::Char('k') {
            self.pricing_scroll = sat_dec(self.pricing_scroll);
        } else if code == Key::Down || code == Key::Char('j') {
            if count > 0 {
                let up = sat_inc(self.pricing_scroll);
                self.pricing_scroll = if up < count - 1 { up } else { count - 1 };
            }
        }
        Action::Idle
    }

    /// A key on the diff screen.
    pub fn handle_diff_key(&mut self, code: Key) -> (a: Action)
        ensures
            final(self)@ == diff_key(old(self)@, code).0,
            action_view(a) == diff_key(old(self)@, code).1,
    {
        let total = self.migration_results.len();
        if code == Key::Char('q') || code == Key::Char('Q') {
            self.should_quit = true;
        } else if code == Key::Esc || code == Key::Backspace {
            self.view = View::Generator;
        } else if code == Key::Left || code == Key::Char('h') || code == Key::Char('H') {
            if total > 0 {
                self.diff_idx = if self.diff_idx == 0 { total - 1 } else { self.diff_idx - 1 };
                self.diff_scroll = 0;
            }
        } else if code == Key::Right || code == Key::Char('l') || code == Key::Char('L') {
            if total > 0 {
                let d = self.diff_idx;
                let next = if d < usize::MAX { (d + 1) % total } else if total == 1 { 0 } else {
                    proof {
                        vstd::arithmetic::div_mod::lemma_add_mod_noop(d as int, 1, total as int);
                        vstd::arithmetic::div_mod::lemma_small_mod(1, total as nat);
                    }
                    (d % total + 1) % total
                };
                self.diff_idx = next;
                self.diff_scroll = 0;
            }
        } else if code == Key::Up || code == Key::Char('k') || code == Key::Char('K') {
            self.diff_scroll = sat_dec(self.diff_scroll);
        } else if code == Key::Down || code == Key::Char('j') || code == Key::Char('J') {
            self.diff_scroll = sat_inc(self.diff_scroll);
        }
        Action::Idle
    }
}

/// The generation started for `out`: the log opened with the zone and the target.
pub open spec fn start_generation(m: AppModel, out: Seq<char>) -> (AppModel, ActionModel) {
    (AppModel {
        is_generating: true,
        gen_log: seq![">> Zone: "@ + m.target_zone, ">> Generating to: "@ + out],
        ..m
    }, ActionModel::Generate(out, m.target_zone, m.scan_path))
}

/// The generator screen: while the output directory is asked every key edits it (Enter
/// starts the generation, Esc goes back to the zone); otherwise the zone picker, and,
/// once generation is done, the TODO review, diff, chat and price list.
pub open spec fn generator_key(m: AppModel, k: Key) -> (AppModel, ActionModel) {
    if m.gen_step == GenStep::AskOutputDir {
        match k {
            Key::Char(c) => (AppModel { input_buf: m.input_buf.push(c), ..m }, ActionModel::Idle),
            Key::Backspace => (AppModel { input_buf: pop(m.input_buf), ..m }, ActionModel::Idle),
            Key::Enter => if trim(m.input_buf).len() > 0 {
                let out = trim(m.input_buf);
                start_generation(AppModel { output_path: Some(out), input_buf: seq![], gen_step: GenStep::Generating, ..m }, out)
            } else {
                (m, ActionModel::Idle)
            },
            Key::Esc => (AppModel { input_buf: seq![], gen_step: GenStep::AskZone, ..m }, ActionModel::Idle),
            _ => (m, ActionModel::Idle),
        }
    } else if k == Key::Char('q') || k == Key::Char('Q') {
        (AppModel { should_quit: true, ..m }, ActionModel::Idle)
    } else if k == Key::Tab || k == Key::BackTab {
        (AppModel { view: View::Resources, ..m }, ActionModel::Idle)
    } else if (k == Key::Char('t') || k == Key::Char('T')) && m.gen_complete {
        match m.output_path {
            Some(d) => (AppModel { todo_idx: 0, todo_input: seq![], view: View::TodoReview, ..m }, ActionModel::ScanTodos(d)),
            None => (m, ActionModel::Idle),
        }
    } else if (k == Key::Char('d') || k == Key::Char('D')) && m.gen_complete {
        (AppModel { diff_idx: 0, diff_scroll: 0, view: View::DiffReview, ..m }, ActionModel::Idle)
    } else if (k == Key::Char('c') || k == Key::Char('C')) && m.gen_complete {
        (m, ActionModel::EnterChat)
    } else if (k == Key::Char('p') || k == Key::Char('P')) && m.gen_complete {
        (m, ActionModel::ComputePricing)
    } else if (k == Key::Up || k == Key::Char('k')) && m.gen_step == GenStep::AskZone {
        (AppModel { zone_idx: if m.zone_idx > 0 { (m.zone_idx - 1) as usize } else { m.zone_idx }, ..m }, ActionModel::Idle)
    } else if (k == Key::Down || k == Key::Char('j')) && m.gen_step == GenStep::AskZone {
        (AppModel { zone_idx: if m.zone_idx + 1 < m.zones.len() { (m.zone_idx + 1) as usize } else { m.zone_idx }, ..m }, ActionModel::Idle)
    } else if k == Key::Enter && m.gen_step == GenStep::AskZone {
        if m.zone_idx < m.zones.len() {
            (AppModel { target_zone: m.zones[m.zone_idx as int], gen_step: GenStep::AskOutputDir, ..m }, ActionModel::Idle)
        } else {
            (m, ActionModel::Idle)
        }
    } else {
        (m, ActionModel::Idle)
    }
}

impl App {
    /// A key on the generator screen.
    #[verifier::rlimit(80)]
    pub fn handle_generator_key(&mut self, code: Key) -> (a: Action)
        ensures
            final(self)@ == generator_key(old(self)@, code).0,
            action_view(a) == generator_key(old(self)@, code).1,
    {
        if self.gen_step == GenStep::AskOutputDir {
            match code {
                Key::Char(c) => {
                    push_char(&mut self.input_buf, c);
                    Action::Idle
                },
                Key::Backspace => {
                    self.input_buf = pop_string(&self.input_buf);
                    Action::Idle
                },
                Key::Enter => {
                    let t = trim_v(&chars_of(self.input_buf.as_str()));
                    if t.len() > 0 {
                        let out = string_of(&t);
                        self.output_path = Some(string_of(&t));
                        self.input_buf = String::new();
                        self.gen_step = GenStep::Generating;
                        self.start_generation(out)
                    } else {
                        Action::Idle
                    }
                },
                Key::Esc => {
                    self.input_buf = String::new();
                    self.gen_step = GenStep::AskZone;
                    Action::Idle
                },
                _ => Action::Idle,
            }
        } else if code == Key::Char('q') || code == Key::Char('Q') {
            self.should_quit = true;
            Action::Idle
        } else if code == Key::Tab || code == Key::BackTab {
            self.view = View::Resources;
            Action::Idle
        } else if (code == Key::Char('t') || code == Key::Char('T')) && self.gen_complete {
            match &self.output_path {
                Some(d) => {
                    let dir = string_of(&chars_of(d.as_str()));
                    self.todo_idx = 0;
                    self.todo_input = String::new();
                    self.view = View::TodoReview;
                    Action::ScanTodos(dir)
                },
                None => Action::Idle,
            }
        } else if (code == Key::Char('d') || code == Key::Char('D')) && self.gen_complete {
            self.diff_idx = 0;
            self.diff_scroll = 0;
            self.view = View::DiffReview;
            Action::Idle
        } else if (code == Key::Char('c') || code == Key::Char('C')) && self.gen_complete {
            Action::EnterChat
        } else if (code == Key::Char('p') || code == Key::Char('P')) && self.gen_complete {
            Action::ComputePricing
        } else if (code == Key::Up || code == Key::Char('k')) && self.gen_step == GenStep::AskZone {
            if self.zone_idx > 0 {
                self.zone_idx = self.zone_idx - 1;
            }
            Action::Idle
        } else if (code == Key::Down || code == Key::Char('j')) && self.gen_step == GenStep::AskZone {
            if self.zone_idx < self.zones.len() && self.zone_idx + 1 < self.zones.len() {
                self.zone_idx = self.zone_idx + 1;
            }
            Action::Idle
        } else if code == Key::Enter && self.gen_step == GenStep::AskZone {
            if self.zone_idx < self.zones.len() {
                assert(strs_view(self.zones@)[self.zone_idx as int] == self.zones@[self.zone_idx as int]@);
                self.target_zone = string_of(&chars_of(self.zones[self.zone_idx].as_str()));
                self.gen_step = GenStep::AskOutputDir;
            }
            Action::Idle
        } else {
            Action::Idle
        }
    }

    fn start_generation(&mut self, out: String) -> (a: Action)
        ensures
            final(self)@ == start_generation(old(self)@, out@).0,
            action_view(a) == start_generation(old(self)@, out@).1,
    {
        self.is_generating = true;
        let mut l1 = String::from_str(">> Zone: ");
        push_str(&mut l1, self.target_zone.as_str());
        let mut l2 = String::from_str(">> Generating to: ");
        push_str(&mut l2, out.as_str());
        let mut log: Vec<String> = Vec::new();
        log.push(l1);
        log.push(l2);
        assert(strs_view(log@) =~= seq![">> Zone: "@ + self.target_zone@, ">> Generating to: "@ + out@]);
        self.gen_log = log;
        let src = match &self.scan_path {
            Some(p) => Some(string_of(&chars_of(p.as_str()))),
            None => None,
        };
        Action::Generate { output_dir: out, zone: string_of(&chars_of(self.target_zone.as_str())), source_dir: src }
    }
}

/// `(i + 1) % len`.
pub open spec fn succ_mod(i: usize, len: int) -> usize {
    ((i + 1) % len) as usize
}

fn succ_mod_exec(i: usize, len: usize) -> (r: usize)
    requires
        len > 0,
    ensures
        r == succ_mod(i, len as int),
        r < len,
{
    if i < usize::MAX {
        (i + 1) % len
    } else if len == 1 {
        0
    } else {
        proof {
            vstd::arithmetic::div_mod::lemma_add_mod_noop(i as int, 1, len as int);
            vstd::arithmetic::div_mod::lemma_small_mod(1, len as nat);
        }
        (i % len + 1) % len
    }
}

/// The first of the `len - off` items from `start + off` (wrapping) that is pending.
pub open spec fn next_pending(todos: Seq<TodoModel>, start: usize, off: int) -> Option<usize>
    decreases todos.len() - off,
{
    if off < 0 || off >= todos.len() {
        None
    } else {
        let idx = ((start + off) % (todos.len() as int)) as usize;
        if todos[idx as int].status == TodoStatus::Pending { Some(idx) } else { next_pending(todos, start, off + 1) }
    }
}

/// A resolution as written: trimmed, and without the backticks around it.
pub open spec fn unticked(r: Seq<char>) -> Seq<char> {
    let t = trim(r);
    if t.len() > 1 && t[0] == '`' && t[t.len() - 1] == '`' { t.subrange(1, t.len() - 1) } else { t }
}

/// The typed resolution, else the assistant's suggestion for the current item, written out
/// in the generated files, the item marked resolved and the next item selected.
pub open spec fn apply_resolution(m: AppModel) -> (AppModel, ActionModel) {
    let len = m.todos.len();
    let idx = m.todo_idx;
    let res0: Option<Seq<char>> = if m.todo_input.len() > 0 { Some(m.todo_input) } else if idx < len { m.todos[idx as int].ai_suggestion } else { None };
    match (res0, m.output_path) {
        (Some(r0), Some(d)) => if idx < len {
            let r = unticked(r0);
            let next: int = if idx + 1 < len - 1 { idx + 1 } else { len - 1 };
            (AppModel {
                todos: m.todos.update(idx as int, TodoModel { resolution: Some(r), status: TodoStatus::Resolved, ..m.todos[idx as int] }),
                todo_input: seq![],
                todo_input_active: false,
                todo_idx: if next > idx || len == 1 { next as usize } else { idx },
                ..m
            }, ActionModel::ApplyResolution(idx, d, r))
        } else {
            (m, ActionModel::Idle)
        },
        _ => (m, ActionModel::Idle),
    }
}

/// The TODO review: while the answer is being typed every key edits it (Enter applies it,
/// Esc drops it); otherwise moving between items, jumping to the next pending one, asking
/// the assistant, skipping, or starting to type.
pub open spec fn todo_key(m: AppModel, k: Key) -> (AppModel, ActionModel) {
    let len = m.todos.len();
    let idx = m.todo_idx;
    if m.todo_input_active {
        match k {
            Key::Esc => (AppModel { todo_input: seq![], todo_input_active: false, ..m }, ActionModel::Idle),
            Key::Tab | Key::BackTab => (AppModel { todo_input_active: false, view: View::Generator, ..m }, ActionModel::Idle),
            Key::Backspace => (AppModel { todo_input: pop(m.todo_input), ..m }, ActionModel::Idle),
            Key::Char(c) => (AppModel { todo_input: m.todo_input.push(c), ..m }, ActionModel::Idle),
            Key::Enter => {
                let r = apply_resolution(m);
                (AppModel { todo_input_active: false, ..r.0 }, r.1)
            },
            _ => (m, ActionModel::Idle),
        }
    } else if k == Key::Char('q') || k == Key::Char('Q') {
        (AppModel { should_quit: true, ..m }, ActionModel::Idle)
    } else if k == Key::Tab || k == Key::BackTab {
        (AppModel { view: View::Generator, ..m }, ActionModel::Idle)
    } else if k == Key::Down || k == Key::Char('j') {
        if len > 0 {
            (AppModel { todo_idx: succ_mod(idx, len as int), todo_input: seq![], todo_input_active: false, ..m }, ActionModel::Idle)
        } else {
            (m, ActionModel::Idle)
        }
    } else if k == Key::Up || k == Key::Char('k') {
        if len > 0 {
            (AppModel { todo_idx: wrap_prev(idx, len as usize), todo_input: seq![], todo_input_active: false, ..m }, ActionModel::Idle)
        } else {
            (m, ActionModel::Idle)
        }
    } else if k == Key::Char('n') || k == Key::Char('N') {
        if len > 0 {
            match next_pending(m.todos, succ_mod(idx, len as int), 0) {
                Some(j) => (AppModel { todo_idx: j, todo_input: seq![], todo_input_active: false, ..m }, ActionModel::Idle),
                None => (m, ActionModel::Idle),
            }
        } else {
            (m, ActionModel::Idle)
        }
    } else if k == Key::Char('a') || k == Key::Char('A') {
        if m.api_key is Some && idx < len && (m.todos[idx as int].status == TodoStatus::Pending || m.todos[idx as int].status == TodoStatus::Resolved) {
            (AppModel { todos: m.todos.update(idx as int, TodoModel { status: TodoStatus::Loading, ..m.todos[idx as int] }), ..m }, ActionModel::RequestSuggestion(idx))
        } else {
            (m, ActionModel::Idle)
        }
    } else if k == Key::Char('s') || k == Key::Char('S') {
        if idx < len {
            (AppModel {
                todos: m.todos.update(idx as int, TodoModel { status: TodoStatus::Skipped, ..m.todos[idx as int] }),
                todo_input: seq![],
                todo_input_active: false,
                todo_idx: if idx + 1 < len { (idx + 1) as usize } else { idx },
                ..m
            }, ActionModel::Idle)
        } else {
            (m, ActionModel::Idle)
        }
    } else if k == Key::Enter {
        (AppModel { todo_input_active: true, ..m }, ActionModel::Idle)
    } else {
        (m, ActionModel::Idle)
    }
}

fn unticked_exec(r: &String) -> (o: String)
    ensures
        o@ == unticked(r@),
{
    let t = trim_v(&chars_of(r.as_str()));
    let n = t.len();
    if n > 1 && t[0] == '`' && t[n - 1] == '`' {
        string_of(&crate::text::slice_of(&t, 1, n - 1))
    } else {
        string_of(&t)
    }
}

impl App {
    /// Sets the status of item `idx`, and its resolution when one is given.
    fn set_todo(&mut self, idx: usize, status: TodoStatus, resolution: Option<String>)
        requires
            idx < old(self).todos@.len(),
        ensures
            final(self)@ == (AppModel {
                todos: old(self)@.todos.update(idx as int, TodoModel {
                    status: status,
                    resolution: match resolution { Some(r) => Some(r@), None => old(self)@.todos[idx as int].resolution },
                    ..old(self)@.todos[idx as int]
                }),
                ..old(self)@
            }),
    {
        let ghost before = todos_view(self.todos@);
        let mut item = self.todos.remove(idx);
        item.status = status;
        match resolution {
            Some(r) => item.resolution = Some(r),
            None => {},
        }
        let ghost iv = item@;
        self.todos.insert(idx, item);
        assert(todos_view(self.todos@) =~= before.update(idx as int, iv));
    }

    fn apply_todo_resolution(&mut self) -> (a: Action)
        ensures
            final(self)@ == apply_resolution(old(self)@).0,
            action_view(a) == apply_resolution(old(self)@).1,
    {
        let len = self.todos.len();
        let idx = self.todo_idx;
        let res0: Option<String> = if !is_empty_str(&self.todo_input) {
            Some(string_of(&chars_of(self.todo_input.as_str())))
        } else if idx < len {
            assert(todos_view(self.todos@)[idx as int] == self.todos@[idx as int]@);
            match &self.todos[idx].ai_suggestion {
                Some(s) => Some(string_of(&chars_of(s.as_str()))),
                None => None,
            }
        } else {
            None
        };
        match (res0, &self.output_path) {
            (Some(r0), Some(d)) => {
                if idx < len {
                    let dir = string_of(&chars_of(d.as_str()));
                    let r = unticked_exec(&r0);
                    let r2 = string_of(&chars_of(r.as_str()));
                    self.set_todo(idx, TodoStatus::Resolved, Some(r2));
                    self.todo_input = String::new();
                    self.todo_input_active = false;
                    let next = if idx + 1 < len - 1 { idx + 1 } else { len - 1 };
                    if next > idx || len == 1 {
                        self.todo_idx = next;
                    }
                    Action::ApplyResolution { idx, output_dir: dir, resolution: r }
                } else {
                    Action::Idle
                }
            },
            _ => Action::Idle,
        }
    }

    fn find_next_pending(&self, start: usize) -> (r: Option<usize>)
        requires
            start < self.todos@.len(),
        ensures
            r == next_pending(todos_view(self.todos@), start, 0),
    {
        let len = self.todos.len();
        let ghost tv = todos_view(self.todos@);
        let mut off: usize = 0;
        while off < len
            invariant
                len == self.todos@.len(),
                tv == todos_view(self.todos@),
                start < len,
                off <= len,
                next_pending(tv, start, 0) == next_pending(tv, start, off as int),
            decreases len - off,
        {
            let idx = if start < len - off { start + off } else { off - (len - start) };
            assert(idx == ((start + off) % (len as int)) as usize) by {
                if start + off < len {
                    vstd::arithmetic::div_mod::lemma_small_mod((start + off) as nat, len as nat);
                } else {
                    let b: int = start + off - len;
                    vstd::arithmetic::div_mod::lemma_mod_add_multiples_vanish(b, len as int);
                    vstd::arithmetic::div_mod::lemma_small_mod(b as nat, len as nat);
                    assert(len + b == start + off);
                }
            }
            assert(tv[idx as int] == self.todos@[idx as int]@);
            if self.todos[idx].status == TodoStatus::Pending {
                return Some(idx);
            }
            off += 1;
        }
        None
    }

    /// A key on the TODO review screen.
    #[verifier::rlimit(80)]
    pub fn handle_todo_key(&mut self, code: Key) -> (a: Action)
        ensures
            final(self)@ == todo_key(old(self)@, code).0,
            action_view(a) == todo_key(old(self)@, code).1,
    {
        let len = self.todos.len();
        let idx = self.todo_idx;
        if self.todo_input_active {
            match code {
                Key::Esc => {
                    self.todo_input = String::new();
                    self.todo_input_active = false;
                    Action::Idle
                },
                Key::Tab | Key::BackTab => {
                    self.todo_input_active = false;
                    self.view = View::Generator;
                    Action::Idle
                },
                Key::Backspace => {
                    self.todo_input = pop_string(&self.todo_input);
                    Action::Idle
                },
                Key::Char(c) => {
                    push_char(&mut self.todo_input, c);
                    Action::Idle
                },
                Key::Enter => {
                    let a = self.apply_todo_resolution();
                    self.todo_input_active = false;
                    a
                },
                _ => Action::Idle,
            }
        } else if code == Key::Char('q') || code == Key::Char('Q') {
            self.should_quit = true;
            Action::Idle
        } else if code == Key::Tab || code == Key::BackTab {
            self.view = View::Generator;
            Action::Idle
        } else if code == Key::Down || code == Key::Char('j') {
            if len > 0 {
                self.todo_idx = succ_mod_exec(idx, len);
                self.todo_input = String::new();
                self.todo_input_active = false;
            }
            Action::Idle
        } else if code == Key::Up || code == Key::Char('k') {
            if len > 0 {
                self.todo_idx = if idx == 0 { len - 1 } else { idx - 1 };
                self.todo_input = String::new();
                self.todo_input_active = false;
            }
            Action::Idle
        } else if code == Key::Char('n') || code == Key::Char('N') {
            if len > 0 {
                let start = succ_mod_exec(idx, len);
                match self.find_next_pending(start) {
                    Some(j) => {
                        self.todo_idx = j;
                        self.todo_input = String::new();
                        self.todo_input_active = false;
                    },
                    None => {},
                }
            }
            Action::Idle
        } else if code == Key::Char('a') || code == Key::Char('A') {
            if self.api_key.is_some() && idx < len {
                assert(todos_view(self.todos@)[idx as int] == self.todos@[idx as int]@);
                let st = self.todos[idx].status;
                if st == TodoStatus::Pending || st == TodoStatus::Resolved {
                    self.set_todo(idx, TodoStatus::Loading, None);
                    Action::RequestSuggestion(idx)
                } else {
                    Action::Idle
                }
            } else {
                Action::Idle
            }
        } else if code == Key::Char('s') || code == Key::Char('S') {
            if idx < len {
                self.set_todo(idx, TodoStatus::Skipped, None);
                self.todo_input = String::new();
                self.todo_input_active = false;
                if idx + 1 < len {
                    self.todo_idx = idx + 1;
                }
            }
            Action::Idle
        } else if code == Key::Enter {
            self.todo_input_active = true;
            Action::Idle
        } else {
            Action::Idle
        }
    }
}

fn resource_types(results: &Vec<MigrationResult>) -> (names: Vec<String>)
    ensures
        strs_view(names@) == results@.map_values(|r: MigrationResult| r.resource_type@),
{
    let mut names: Vec<String> = Vec::new();
    let mut i: usize = 0;
    while i < results.len()
        invariant
            i <= results@.len(),
            strs_view(names@) == results@.take(i as int).map_values(|r: MigrationResult| r.resource_type@),
        decreases results@.len() - i,
    {
        names.push(string_of(&chars_of(results[i].resource_type.as_str())));
        assert(results@.take(i + 1).map_values(|r: MigrationResult| r.resource_type@) =~= results@.take(i as int).map_values(|r: MigrationResult| r.resource_type@).push(results@[i as int].resource_type@));
        assert(strs_view(names@) =~= results@.take(i + 1).map_values(|r: MigrationResult| r.resource_type@));
        i += 1;
    }
    assert(results@.take(results@.len() as int) =~= results@);
    names
}

/// The chat: typing, sending (unless an answer is awaited), and scrolling while nothing
/// is typed; the answer is requested when there is an API key.
pub open spec fn chat_key(m: AppModel, k: Key) -> (AppModel, ActionModel) {
    let max = m.chat_scroll_max as usize;
    let eff: usize = if m.chat_scroll < max { m.chat_scroll } else { max };
    let empty = m.chat_input.len() == 0;
    if (k == Key::Char('q') || k == Key::Char('Q')) && empty {
        (AppModel { should_quit: true, ..m }, ActionModel::Idle)
    } else if k == Key::Esc || k == Key::Tab || k == Key::BackTab {
        (AppModel { view: View::Generator, ..m }, ActionModel::Idle)
    } else if (k == Key::Up || k == Key::Char('k')) && empty {
        (AppModel { chat_scroll: if eff >= 3 { (eff - 3) as usize } else { 0 }, ..m }, ActionModel::Idle)
    } else if (k == Key::Down || k == Key::Char('j')) && empty {
        (AppModel { chat_scroll: if eff >= max { 9999 } else if eff + 3 < max { (eff + 3) as usize } else { max }, ..m }, ActionModel::Idle)
    } else {
        match k {
            Key::Char(c) => (AppModel { chat_input: m.chat_input.push(c), ..m }, ActionModel::Idle),
            Key::Backspace => (AppModel { chat_input: pop(m.chat_input), ..m }, ActionModel::Idle),
            Key::Enter => {
                let msg = trim(m.chat_input);
                if msg.len() > 0 && !m.chat_loading {
                    (AppModel {
                        chat_input: seq![],
                        chat_messages: m.chat_messages.push((true, msg)),
                        chat_loading: true,
                        chat_scroll: 9999,
                        ..m
                    }, if m.api_key is Some { ActionModel::SendChat } else { ActionModel::Idle })
                } else {
                    (m, ActionModel::Idle)
                }
            },
            _ => (m, ActionModel::Idle),
        }
    }
}

/// The message that opens a chat.
pub open spec fn chat_intro() -> Seq<char> {
    "Briefly introduce yourself and summarise the generated Terraform in 2-3 sentences."@
}

/// The chat entered with the generated files as context: a fresh conversation that,
/// when there is an API key, opens by asking for an introduction.
pub open spec fn enter_chat(m: AppModel, ctx: Seq<char>) -> (AppModel, ActionModel) {
    let base = AppModel {
        chat_tf_context: ctx,
        chat_messages: seq![],
        chat_input: seq![],
        chat_loading: false,
        chat_scroll: 9999,
        view: View::Chat,
        ..m
    };
    if m.api_key is Some {
        (AppModel { chat_messages: seq![(true, chat_intro())], chat_loading: true, ..base }, ActionModel::SendChat)
    } else {
        (base, ActionModel::Idle)
    }
}

/// A message from background work.
pub open spec fn message(m: AppModel, msg: AppMessage) -> AppModel {
    match msg {
        AppMessage::FileFound(p) => AppModel { scan_files: m.scan_files.push(p@), scan_current: Some(p@), ..m },
        AppMessage::ScanComplete(rs, pts) => AppModel {
            resources: rs@.map_values(|r: MigrationResult| r.resource_type@),
            migration_results: rs@,
            passthroughs: pts@,
            scan_complete: true,
            table_selected: Some(0),
            ..m
        },
        AppMessage::GenerateLog(l) => AppModel { gen_log: m.gen_log.push(l@), ..m },
        AppMessage::GenerateDone(count, map) => AppModel {
            is_generating: false,
            gen_complete: true,
            gen_complete_tick: m.tick,
            gen_step: GenStep::Done,
            gen_files_count: count,
            resolved_hcl_map: resolved_map_view(map@),
            ..m
        },
        AppMessage::AiSuggestion(idx, s) => if idx < m.todos.len() {
            AppModel { todos: m.todos.update(idx as int, TodoModel { ai_suggestion: Some(s@), status: TodoStatus::Pending, ..m.todos[idx as int] }), ..m }
        } else {
            m
        },
        AppMessage::AiError(idx, e) => if idx < m.todos.len() {
            AppModel { todos: m.todos.update(idx as int, TodoModel { ai_suggestion: Some("[AI error: "@ + e@ + "]"@), status: TodoStatus::Pending, ..m.todos[idx as int] }), ..m }
        } else {
            m
        },
        AppMessage::ChatResponse(t) => AppModel { chat_loading: false, chat_messages: m.chat_messages.push((false, t@)), chat_scroll: 9999, ..m },
        AppMessage::ChatError(e) => AppModel { chat_loading: false, chat_messages: m.chat_messages.push((false, "[Error: "@ + e@ + "]"@)), chat_scroll: 9999, ..m },
        AppMessage::Error(e) => AppModel { gen_log: m.gen_log.push("[ERR] "@ + e@), ..m },
    }
}

/// One tick of the clock: the scanner moves on to the resources once the scan is done,
/// on every twentieth tick.
pub open spec fn on_tick(m: AppModel) -> AppModel {
    let t: u64 = if m.tick == u64::MAX { 0 } else { (m.tick + 1) as u64 };
    AppModel {
        tick: t,
        view: if m.view == View::Scanner && m.scan_complete && t % 20 == 0 { View::Resources } else { m.view },
        ..m
    }
}

/// A key, handled by the screen that is shown.
pub open spec fn key(m: AppModel, k: Key) -> (AppModel, ActionModel) {
    match m.view {
        View::Splash => splash_key(m, k),
        View::FileBrowser => filebrowser_key(m, k),
        View::Scanner => scanner_key(m, k),
        View::Resources => resources_key(m, k),
        View::Generator => generator_key(m, k),
        View::DiffReview => diff_key(m, k),
        View::TodoReview => todo_key(m, k),
        View::Chat => chat_key(m, k),
        View::Pricing => pricing_key(m, k),
    }
}

impl App {
    /// A key in the chat.
    #[verifier::rlimit(60)]
    pub fn handle_chat_key(&mut self, code: Key) -> (a: Action)
        ensures
            final(self)@ == chat_key(old(self)@, code).0,
            action_view(a) == chat_key(old(self)@, code).1,
    {
        let max = self.chat_scroll_max as usize;
        let eff = if self.chat_scroll < max { self.chat_scroll } else { max };
        let empty = is_empty_str(&self.chat_input);
        if (code == Key::Char('q') || code == Key::Char('Q')) && empty {
            self.should_quit = true;
            Action::Idle
        } else if code == Key::Esc || code == Key::Tab || code == Key::BackTab {
            self.view = View::Generator;
            Action::Idle
        } else if (code == Key::Up || code == Key::Char('k')) && empty {
            self.chat_scroll = if eff >= 3 { eff - 3 } else { 0 };
            Action::Idle
        } else if (code == Key::Down || code == Key::Char('j')) && empty {
            self.chat_scroll = if eff >= max { 9999 } else if eff + 3 < max { eff + 3 } else { max };
            Action::Idle
        } else {
            match code {
                Key::Char(c) => {
                    push_char(&mut self.chat_input, c);
                    Action::Idle
                },
                Key::Backspace => {
                    self.chat_input = pop_string(&self.chat_input);
                    Action::Idle
                },
                Key::Enter => {
                    let msg = string_of(&trim_v(&chars_of(self.chat_input.as_str())));
                    if !is_empty_str(&msg) && !self.chat_loading {
                        self.chat_input = String::new();
                        let ghost before = chat_view(self.chat_messages@);
                        self.chat_messages.push(ChatMessage::user(msg.as_str()));
                        assert(chat_view(self.chat_messages@) =~= before.push((true, msg@)));
                        self.chat_loading = true;
                        self.chat_scroll = 9999;
                        if self.api_key.is_some() { Action::SendChat } else { Action::Idle }
                    } else {
                        Action::Idle
                    }
                },
                _ => Action::Idle,
            }
        }
    }

    /// Enter the chat with `tf_context`, the generated files, as its context.
    pub fn enter_chat_view(&mut self, tf_context: String) -> (a: Action)
        ensures
            final(self)@ == enter_chat(old(self)@, tf_context@).0,
            action_view(a) == enter_chat(old(self)@, tf_context@).1,
    {
        self.chat_tf_context = tf_context;
        self.chat_messages = Vec::new();
        self.chat_input = String::new();
        self.chat_loading = false;
        self.chat_scroll = 9999;
        self.view = View::Chat;
        assert(chat_view(self.chat_messages@) =~= seq![]);
        if self.api_key.is_some() {
            self.chat_messages.push(ChatMessage::user("Briefly introduce yourself and summarise the generated Terraform in 2-3 sentences."));
            assert(chat_view(self.chat_messages@) =~= seq![(true, chat_intro())]);
            self.chat_loading = true;
            Action::SendChat
        } else {
            Action::Idle
        }
    }

    /// Item `idx` gets the suggestion `s` and is pending again.
    fn suggest(&mut self, idx: usize, s: String)
        requires
            idx < old(self).todos@.len(),
        ensures
            final(self)@ == (AppModel {
                todos: old(self)@.todos.update(idx as int, TodoModel { ai_suggestion: Some(s@), status: TodoStatus::Pending, ..old(self)@.todos[idx as int] }),
                ..old(self)@
            }),
    {
        let ghost before = todos_view(self.todos@);
        let mut item = self.todos.remove(idx);
        item.ai_suggestion = Some(s);
        item.status = TodoStatus::Pending;
        let ghost iv = item@;
        self.todos.insert(idx, item);
        assert(todos_view(self.todos@) =~= before.update(idx as int, iv));
    }

    /// A message from background work.
    #[verifier::rlimit(80)]
    #[verifier::spinoff_prover]
    pub fn handle_message(&mut self, msg: AppMessage)
        ensures
            final(self)@ == message(old(self)@, msg),
    {
        let ghost m = msg;
        match msg {
            AppMessage::FileFound(path) => {
                let ghost before = strs_view(self.scan_files@);
                self.scan_files.push(string_of(&chars_of(path.as_str())));
                assert(strs_view(self.scan_files@) =~= before.push(path@));
                self.scan_current = Some(path);
            },
            AppMessage::ScanComplete(results, passthroughs) => {
                self.resources = resource_types(&results);
                self.migration_results = results;
                self.passthroughs = passthroughs;
                self.scan_complete = true;
                self.table_selected = Some(0);
            },
            AppMessage::GenerateLog(line) => {
                let ghost before = strs_view(self.gen_log@);
                self.gen_log.push(line);
                assert(strs_view(self.gen_log@) =~= before.push(m->GenerateLog_0@));
            },
            AppMessage::GenerateDone(count, resolved_map) => {
                self.is_generating = false;
                self.gen_complete = true;
                self.gen_complete_tick = self.tick;
                self.gen_step = GenStep::Done;
                self.gen_files_count = count;
                self.resolved_hcl_map = resolved_map;
            },
            AppMessage::AiSuggestion(idx, suggestion) => {
                if idx < self.todos.len() {
                    self.suggest(idx, suggestion);
                }
            },
            AppMessage::AiError(idx, err) => {
                if idx < self.todos.len() {
                    let mut t = String::from_str("[AI error: ");
                    push_str(&mut t, err.as_str());
                    push_str(&mut t, "]");
                    self.suggest(idx, t);
                }
            },
            AppMessage::ChatResponse(text) => {
                self.chat_loading = false;
                let ghost before = chat_view(self.chat_messages@);
                self.chat_messages.push(ChatMessage::ai(text.as_str()));
                assert(chat_view(self.chat_messages@) =~= before.push((false, text@)));
                self.chat_scroll = 9999;
            },
            AppMessage::ChatError(err) => {
                self.chat_loading = false;
                let mut t = String::from_str("[Error: ");
                push_str(&mut t, err.as_str());
                push_str(&mut t, "]");
                let ghost before = chat_view(self.chat_messages@);
                self.chat_messages.push(ChatMessage::ai(t.as_str()));
                assert(chat_view(self.chat_messages@) =~= before.push((false, t@)));
                self.chat_scroll = 9999;
            },
            AppMessage::Error(e) => {
                let mut t = String::from_str("[ERR] ");
                push_str(&mut t, e.as_str());
                let ghost before = strs_view(self.gen_log@);
                self.gen_log.push(t);
                assert(strs_view(self.gen_log@) =~= before.push("[ERR] "@ + e@));
            },
        }
    }

    /// One tick of the clock.
    pub fn on_tick(&mut self)
        ensures
            final(self)@ == on_tick(old(self)@),
    {
        self.tick = if self.tick == u64::MAX { 0 } else { self.tick + 1 };
        if self.view == View::Scanner && self.scan_complete && self.tick % 20 == 0 {
            self.view = View::Resources;
        }
    }

    /// A key, handled by the screen that is shown.
    pub fn handle_key(&mut self, code: Key) -> (a: Action)
        ensures
            final(self)@ == key(old(self)@, code).0,
            action_view(a) == key(old(self)@, code).1,
    {
        match self.view {
            View::Splash => self.handle_splash_key(code),
            View::FileBrowser => self.handle_filebrowser_key(code),
            View::Scanner => self.handle_scanner_key(code),
            View::Resources => self.handle_resources_key(code),
            View::Generator => self.handle_generator_key(code),
            View::DiffReview => self.handle_diff_key(code),
            View::TodoReview => self.handle_todo_key(code),
            View::Chat => self.handle_chat_key(code),
            View::Pricing => self.handle_pricing_key(code),
        }
    }

    /// The TODO placeholders found in the generated files.
    pub fn set_todos(&mut self, todos: Vec<TodoItem>)
        ensures
            final(self)@ == (AppModel { todos: todos_view(todos@), ..old(self)@ }),
    {
        self.todos = todos;
    }

    /// The price list computed, with `count` entries, is shown.
    pub fn show_pricing(&mut self, count: usize)
        ensures
            final(self)@ == (AppModel { pricing_count: count, pricing_scroll: 0, view: View::Pricing, ..old(self)@ }),
    {
        self.pricing_count = count;
        self.pricing_scroll = 0;
        self.view = View::Pricing;
    }
}

/// The key by which file browser names are ordered: their lowercase form for
/// directories, the name itself for files.
pub open spec fn name_key(lower: bool) -> spec_fn(Seq<char>) -> Seq<char> {
    |s: Seq<char>| if lower { crate::text::spec_to_lowercase(s) } else { s }
}

fn key_of(s: &String, lower: bool) -> (r: Vec<char>)
    ensures
        r@ == name_key(lower)(s@),
{
    if lower { chars_of(crate::text::to_lowercase(s.as_str()).as_str()) } else { chars_of(s.as_str()) }
}

/// Sorts names by [`name_key`], stably.
fn sort_names(input: Vec<String>, lower: bool) -> (r: Vec<String>)
    ensures
        strs_view(r@) == isort_by(strs_view(input@), name_key(lower)),
{
    let ghost orig = strs_view(input@);
    let mut rest = input;
    let mut out: Vec<String> = Vec::new();
    let n = rest.len();
    let mut k: usize = 0;
    assert(orig.take(0) =~= Seq::<Seq<char>>::empty());
    assert(strs_view(out@) =~= Seq::<Seq<char>>::empty());
    while k < n
        invariant
            n == orig.len(),
            k <= n,
            rest@.len() == n - k,
            strs_view(rest@) == orig.skip(k as int),
            strs_view(out@) == isort_by(orig.take(k as int), name_key(lower)),
        decreases n - k,
    {
        assert(strs_view(rest@)[0] == rest@[0]@);
        let ghost rv0 = rest@;
        let x = rest.remove(0);
        assert(x@ == orig[k as int]);
        assert(rest@ =~= rv0.subrange(1, rv0.len() as int));
        assert(strs_view(rest@) =~= strs_view(rv0).drop_first());
        assert(orig.skip(k + 1) =~= orig.skip(k as int).drop_first());
        assert(strs_view(rest@) =~= orig.skip(k + 1));
        let xk = key_of(&x, lower);
        let ghost ov = strs_view(out@);
        let mut p = out.len();
        assert(ov.take(p as int) =~= ov);
        assert(ov.skip(p as int) =~= Seq::<Seq<char>>::empty());
        while p > 0 && lex_lt_exec(&xk, &key_of(&out[p - 1], lower))
            invariant
                p <= out@.len(),
                ov == strs_view(out@),
                xk@ == name_key(lower)(x@),
                ins_by(ov, x@, name_key(lower)) == ins_by(ov.take(p as int), x@, name_key(lower)) + ov.skip(p as int),
            decreases p,
        {
            proof {
                assert(ov[p - 1] == out@[p - 1]@);
                lemma_ins_by_split(ov, x@, name_key(lower), p as int);
            }
            p -= 1;
        }
        proof {
            if p > 0 {
                assert(ov.take(p as int).last() == ov[p - 1]);
                assert(ov[p - 1] == out@[p - 1]@);
            }
            assert(ins_by(ov.take(p as int), x@, name_key(lower)) == ov.take(p as int).push(x@));
            assert(orig.take(k + 1).drop_last() =~= orig.take(k as int));
            assert(orig.take(k + 1).last() == x@);
        }
        let ghost xv = x@;
        out.insert(p, x);
        assert(strs_view(out@) =~= ov.take(p as int).push(xv) + ov.skip(p as int));
        k += 1;
    }
    assert(orig.take(n as int) =~= orig);
    out
}

/// The names of the first `n` visible entries that are directories (`dirs`) or `.tf`
/// files (`!dirs`); names starting with a dot are hidden.
pub open spec fn listed_names(entries: Seq<(Seq<char>, bool)>, dirs: bool, n: int) -> Seq<Seq<char>>
    decreases n,
{
    if n <= 0 {
        seq![]
    } else {
        let e = entries[n - 1];
        let keep = !starts_with(e.0, "."@) && if dirs { e.1 } else { !e.1 && ends_with(e.0, ".tf"@) };
        if keep { listed_names(entries, dirs, n - 1).push(e.0) } else { listed_names(entries, dirs, n - 1) }
    }
}

/// The file browser's entries for a directory: the parent (`[..]`) unless at the root,
/// the subdirectories ordered case-insensitively, then the `.tf` files in order.
pub open spec fn listing(has_parent: bool, entries: Seq<(Seq<char>, bool)>) -> Seq<(Seq<char>, bool)> {
    let dirs = isort_by(listed_names(entries, true, entries.len() as int), name_key(true));
    let files = isort_by(listed_names(entries, false, entries.len() as int), name_key(false));
    (if has_parent { seq![("[..]"@, true)] } else { seq![] })
        + dirs.map_values(|d: Seq<char>| (d, true))
        + files.map_values(|f: Seq<char>| (f, false))
}

fn listed(entries: &Vec<(String, bool)>) -> (r: (Vec<String>, Vec<String>))
    ensures
        strs_view(r.0@) == listed_names(entries_view(entries@), true, entries@.len() as int),
        strs_view(r.1@) == listed_names(entries_view(entries@), false, entries@.len() as int),
{
    let ghost ev = entries_view(entries@);
    let mut dirs: Vec<String> = Vec::new();
    let mut files: Vec<String> = Vec::new();
    let mut i: usize = 0;
    while i < entries.len()
        invariant
            i <= entries@.len(),
            ev == entries_view(entries@),
            strs_view(dirs@) == listed_names(ev, true, i as int),
            strs_view(files@) == listed_names(ev, false, i as int),
        decreases entries@.len() - i,
    {
        assert(ev[i as int] == (entries@[i as int].0@, entries@[i as int].1));
        let name = chars_of(entries[i].0.as_str());
        let is_dir = entries[i].1;
        if !crate::text::starts_with_exec(&name, ".") {
            if is_dir {
                let ghost b = strs_view(dirs@);
                dirs.push(string_of(&name));
                assert(strs_view(dirs@) =~= b.push(name@));
            } else if crate::text::ends_with_exec(&name, ".tf") {
                let ghost b = strs_view(files@);
                files.push(string_of(&name));
                assert(strs_view(files@) =~= b.push(name@));
            }
        }
        i += 1;
    }
    (dirs, files)
}

fn append_named(out: &mut Vec<(String, bool)>, names: &Vec<String>, is_dir: bool)
    ensures
        entries_view(final(out)@) == entries_view(old(out)@) + strs_view(names@).map_values(|n: Seq<char>| (n, is_dir)),
{
    let ghost start = entries_view(out@);
    let mut j: usize = 0;
    while j < names.len()
        invariant
            j <= names@.len(),
            entries_view(out@) == start + strs_view(names@).take(j as int).map_values(|n: Seq<char>| (n, is_dir)),
        decreases names@.len() - j,
    {
        let ghost b = entries_view(out@);
        out.push((string_of(&chars_of(names[j].as_str())), is_dir));
        assert(strs_view(names@).take(j + 1).map_values(|n: Seq<char>| (n, is_dir)) =~= strs_view(names@).take(j as int).map_values(|n: Seq<char>| (n, is_dir)).push((names@[j as int]@, is_dir)));
        assert(entries_view(out@) =~= b.push((names@[j as int]@, is_dir)));
        j += 1;
    }
    assert(strs_view(names@).take(names@.len() as int) =~= strs_view(names@));
}

impl App {
    /// The file browser now shows directory `cwd` (`has_parent` unless it is the root),
    /// whose entries are `(name, is a directory)` as read, in any order; the first entry
    /// is selected.
    pub fn show_listing(&mut self, cwd: String, has_parent: bool, entries: Vec<(String, bool)>)
        ensures
            final(self)@ == (AppModel {
                fb_cwd: cwd@,
                fb_entries: listing(has_parent, entries_view(entries@)),
                fb_selected: if listing(has_parent, entries_view(entries@)).len() == 0 { None } else { Some(0) },
                ..old(self)@
            }),
    {
        let (dirs, files) = listed(&entries);
        let sd = sort_names(dirs, true);
        let sf = sort_names(files, false);
        let mut out: Vec<(String, bool)> = Vec::new();
        if has_parent {
            out.push((String::from_str("[..]"), true));
        }
        let ghost head: Seq<(Seq<char>, bool)> = if has_parent { seq![("[..]"@, true)] } else { seq![] };
        assert(entries_view(out@) =~= head);
        append_named(&mut out, &sd, true);
        append_named(&mut out, &sf, false);
        self.fb_cwd = cwd;
        let empty = out.len() == 0;
        self.fb_entries = out;
        self.fb_selected = if empty { None } else { Some(0) };
    }
}

/// The number of bytes of `c` in UTF-8.
pub open spec fn utf8_width(c: char) -> nat {
    let u = c as u32;
    if u < 0x80 { 1 } else if u < 0x800 { 2 } else if u < 0x10000 { 3 } else { 4 }
}

/// The number of bytes of `s` in UTF-8.
pub open spec fn utf8_len(s: Seq<char>) -> nat
    decreases s.len(),
{
    if s.len() == 0 { 0 } else { utf8_len(s.drop_last()) + utf8_width(s.last()) }
}

/// The UTF-8 length of `s`, or `cap` when it is longer.
fn utf8_len_capped(s: &str, cap: u64) -> (r: u64)
    ensures
        r == if utf8_len(s@) < cap { utf8_len(s@) } else { cap as nat },
{
    let v = chars_of(s);
    let mut n: u64 = 0;
    let mut i: usize = 0;
    while i < v.len()
        invariant
            i <= v@.len(),
            n == if utf8_len(v@.take(i as int)) < cap { utf8_len(v@.take(i as int)) } else { cap as nat },
        decreases v@.len() - i,
    {
        let u = v[i] as u32;
        let w: u64 = if u < 0x80 { 1 } else if u < 0x800 { 2 } else if u < 0x10000 { 3 } else { 4 };
        assert(v@.take(i + 1).drop_last() =~= v@.take(i as int));
        assert(v@.take(i + 1).last() == v@[i as int]);
        if n < cap {
            n = if cap - n < w { cap } else { n + w };
        }
        i += 1;
    }
    assert(v@.take(v@.len() as int) =~= v@);
    n
}

/// The section of one generated file in the assistant's context.
pub open spec fn file_section(name: Seq<char>, content: Seq<char>) -> Seq<char> {
    "# --- "@ + name + " ---\n"@ + content + "\n"@
}

/// The context built from the first `n` files, and whether it stopped at the limit: each
/// file's section is added while the whole stays within 20,000 bytes.
pub open spec fn context_fold(files: Seq<(Seq<char>, Seq<char>)>, n: int) -> (Seq<char>, bool)
    decreases n,
{
    if n <= 0 {
        (seq![], false)
    } else {
        let p = context_fold(files, n - 1);
        let h = "# --- "@ + files[n - 1].0 + " ---\n"@;
        if p.1 || utf8_len(p.0) + utf8_len(h) + utf8_len(files[n - 1].1) + 1 > 20000 {
            (p.0, true)
        } else {
            (p.0 + file_section(files[n - 1].0, files[n - 1].1), false)
        }
    }
}

pub open spec fn file_name_key() -> spec_fn((Seq<char>, Seq<char>)) -> Seq<char> {
    |f: (Seq<char>, Seq<char>)| f.0
}

pub open spec fn files_view(v: Seq<(String, String)>) -> Seq<(Seq<char>, Seq<char>)> {
    v.map_values(|f: (String, String)| (f.0@, f.1@))
}

/// The assistant's context: the generated `.tf` files in order of name, each under a
/// header line, as many as fit in 20,000 bytes.
pub open spec fn spec_tf_context(files: Seq<(Seq<char>, Seq<char>)>) -> Seq<char> {
    let sorted = isort_by(files, file_name_key());
    context_fold(sorted, sorted.len() as int).0
}

/// Sorts files by name, stably.
fn sort_files(input: Vec<(String, String)>) -> (r: Vec<(String, String)>)
    ensures
        files_view(r@) == isort_by(files_view(input@), file_name_key()),
{
    let ghost orig = files_view(input@);
    let mut rest = input;
    let mut out: Vec<(String, String)> = Vec::new();
    let n = rest.len();
    let mut k: usize = 0;
    assert(orig.take(0) =~= Seq::<(Seq<char>, Seq<char>)>::empty());
    assert(files_view(out@) =~= Seq::<(Seq<char>, Seq<char>)>::empty());
    while k < n
        invariant
            n == orig.len(),
            k <= n,
            rest@.len() == n - k,
            files_view(rest@) == orig.skip(k as int),
            files_view(out@) == isort_by(orig.take(k as int), file_name_key()),
        decreases n - k,
    {
        assert(files_view(rest@)[0] == (rest@[0].0@, rest@[0].1@));
        let ghost rv0 = rest@;
        let x = rest.remove(0);
        let ghost xv = (x.0@, x.1@);
        assert(xv == orig[k as int]);
        assert(rest@ =~= rv0.subrange(1, rv0.len() as int));
        assert(files_view(rest@) =~= files_view(rv0).drop_first());
        assert(orig.skip(k + 1) =~= orig.skip(k as int).drop_first());
        let xk = chars_of(x.0.as_str());
        let ghost ov = files_view(out@);
        let mut p = out.len();
        assert(ov.take(p as int) =~= ov);
        assert(ov.skip(p as int) =~= Seq::<(Seq<char>, Seq<char>)>::empty());
        while p > 0 && lex_lt_exec(&xk, &chars_of(out[p - 1].0.as_str()))
            invariant
                p <= out@.len(),
                ov == files_view(out@),
                xk@ == file_name_key()(xv),
                ins_by(ov, xv, file_name_key()) == ins_by(ov.take(p as int), xv, file_name_key()) + ov.skip(p as int),
            decreases p,
        {
            proof {
                assert(ov[p - 1] == (out@[p - 1].0@, out@[p - 1].1@));
                lemma_ins_by_split(ov, xv, file_name_key(), p as int);
            }
            p -= 1;
        }
        proof {
            if p > 0 {
                assert(ov.take(p as int).last() == ov[p - 1]);
                assert(ov[p - 1] == (out@[p - 1].0@, out@[p - 1].1@));
            }
            assert(ins_by(ov.take(p as int), xv, file_name_key()) == ov.take(p as int).push(xv));
            assert(orig.take(k + 1).drop_last() =~= orig.take(k as int));
            assert(orig.take(k + 1).last() == xv);
        }
        out.insert(p, x);
        assert(files_view(out@) =~= ov.take(p as int).push(xv) + ov.skip(p as int));
        k += 1;
    }
    assert(orig.take(n as int) =~= orig);
    out
}

/// The assistant's context from the generated `.tf` files, given as `(name, content)`
/// in any order.
pub fn build_tf_context(files: Vec<(String, String)>) -> (r: String)
    ensures
        r@ == spec_tf_context(files_view(files@)),
{
    let ghost fv = files_view(files@);
    let sorted = sort_files(files);
    let ghost sv = files_view(sorted@);
    let mut ctx = String::new();
    let mut ctx_len: u64 = 0;
    let mut i: usize = 0;
    while i < sorted.len()
        invariant
            i <= sorted@.len(),
            sv == files_view(sorted@),
            sv == isort_by(fv, file_name_key()),
            fv == files_view(files@),
            context_fold(sv, i as int) == (ctx@, false),
            ctx_len == utf8_len(ctx@),
            ctx_len <= 20000,
        decreases sorted@.len() - i,
    {
        assert(sv[i as int] == (sorted@[i as int].0@, sorted@[i as int].1@));
        let mut h = String::from_str("# --- ");
        push_str(&mut h, sorted[i].0.as_str());
        push_str(&mut h, " ---\n");
        let hl = utf8_len_capped(h.as_str(), 20001);
        let cl = utf8_len_capped(sorted[i].1.as_str(), 20001);
        if ctx_len + hl + cl + 1 > 20000 {
            assert(context_fold(sv, i + 1) == (ctx@, true));
            proof {
                lemma_context_stays(sv, i + 1, sv.len() as int);
            }
            return ctx;
        }
        proof {
            lemma_utf8_len_concat(ctx@, h@);
            lemma_utf8_len_concat(ctx@ + h@, sorted@[i as int].1@);
            lemma_utf8_len_concat(ctx@ + h@ + sorted@[i as int].1@, "\n"@);
            reveal_strlit("\n");
            assert("\n"@.drop_last() =~= Seq::<char>::empty());
            assert("\n"@ =~= seq!['\n']);
            assert(utf8_width('\n') == 1);
            assert(utf8_len(Seq::<char>::empty()) == 0);
            assert(seq!['\n'].drop_last() =~= Seq::<char>::empty());
            assert(utf8_len(seq!['\n']) == 1);
        }
        push_str(&mut ctx, h.as_str());
        push_str(&mut ctx, sorted[i].1.as_str());
        push_str(&mut ctx, "\n");
        ctx_len = ctx_len + hl + cl + 1;
        i += 1;
    }
    ctx
}

/// Once the limit is reached no later file is added.
proof fn lemma_context_stays(files: Seq<(Seq<char>, Seq<char>)>, i: int, j: int)
    requires
        context_fold(files, i).1,
        i <= j,
    ensures
        context_fold(files, j) == context_fold(files, i),
    decreases j - i,
{
    if j > i {
        lemma_context_stays(files, i, j - 1);
    }
}

proof fn lemma_utf8_len_concat(a: Seq<char>, b: Seq<char>)
    ensures
        utf8_len(a + b) == utf8_len(a) + utf8_len(b),
    decreases b.len(),
{
    if b.len() == 0 {
        assert(a + b =~= a);
    } else {
        lemma_utf8_len_concat(a, b.drop_last());
        assert((a + b).drop_last() =~= a + b.drop_last());
        assert((a + b).last() == b.last());
    }
}

proof fn lemma_next_pending_in_range(todos: Seq<TodoModel>, start: usize, off: int)
    requires
        todos.len() > 0,
    ensures
        next_pending(todos, start, off) matches Some(j) ==> j < todos.len(),
    decreases todos.len() - off,
{
    if 0 <= off < todos.len() {
        vstd::arithmetic::div_mod::lemma_mod_bound((start + off) as int, todos.len() as int);
        lemma_next_pending_in_range(todos, start, off + 1);
    }
}

/// Reviewing TODOs keeps the selection on an item: from a selected item, any key leaves
/// the same number of items with one of them selected.
pub proof fn todo_selection_stays_in_range(m: AppModel, k: Key)
    requires
        m.todo_idx < m.todos.len(),
    ensures
        todo_key(m, k).0.todos.len() == m.todos.len(),
        todo_key(m, k).0.todo_idx < m.todos.len(),
{
    let len = m.todos.len();
    vstd::arithmetic::div_mod::lemma_mod_bound((m.todo_idx + 1) as int, len as int);
    lemma_next_pending_in_range(m.todos, succ_mod(m.todo_idx, len as int), 0);
}

/// Moving through the diff keeps it on a resource: from a shown resource, any key keeps
/// the index below the number of resources.
pub proof fn diff_selection_stays_in_range(m: AppModel, k: Key)
    requires
        m.diff_idx < m.migration_results.len(),
    ensures
        diff_key(m, k).0.diff_idx < m.migration_results.len(),
{
    vstd::arithmetic::div_mod::lemma_mod_bound((m.diff_idx + 1) as int, m.migration_results.len() as int);
}

/// Moving through the file browser keeps the selection on an entry: any key leaves a
/// selected entry selected or, for an empty listing, nothing new selected.
pub proof fn browser_selection_stays_in_range(m: AppModel, k: Key)
    requires
        m.fb_selected matches Some(i) ==> i < m.fb_entries.len(),
    ensures
        filebrowser_key(m, k).0.fb_entries == m.fb_entries,
        filebrowser_key(m, k).0.fb_selected matches Some(i) ==> i < m.fb_entries.len(),
{
}

} // verus!
