//! The decisions of the project-detail window: which account entry it shows,
//! which screening is selected, what choosing a ticket type records, what
//! closing the window clears, and how statuses, labels and timestamps read.
//!
//! The window itself is drawn by the application each frame; it calls these
//! functions at the points where the user acted.
use vstd::prelude::*;
use crate::text::{decimal_text, i64_text, signed_decimal_text, str_equals, u64_text};
use chrono::TimeZone;

verus! {

// ---------------------------------------------------------------------------
// Data
// ---------------------------------------------------------------------------

/// A sale flag as the ticket service reports it; only its display name is read.
#[derive(Clone, Debug)]
pub struct SaleFlag {
    pub display_name: String,
}

/// One ticket type of a screening.
#[derive(Clone, Debug)]
pub struct TicketInfo {
    pub id: u64,
    pub project_id: u64,
    pub desc: String,
    /// Price in cents.
    pub price: u64,
    pub sale_flag: SaleFlag,
    pub sale_flag_number: i64,
    pub clickable: bool,
}

/// One screening (session) of a project.
#[derive(Clone, Debug)]
pub struct ScreenInfo {
    pub id: u64,
    pub name: String,
    pub sale_flag: SaleFlag,
    pub start_time: usize,
    pub sale_start: usize,
    pub sale_end: usize,
    pub ticket_list: Vec<TicketInfo>,
}

/// An entry of a description module's details: its `title` and `content`
/// members, each present when the member exists and is a string.
#[derive(Clone, Debug)]
pub struct InfoField {
    pub title: Option<String>,
    pub content: Option<String>,
}

/// One module of a project's description.  `details` is `None` when the
/// details are not an array.
#[derive(Clone, Debug)]
pub struct DescModule {
    pub module: String,
    pub details: Option<Vec<InfoField>>,
}

/// A project's description.
#[derive(Clone, Debug)]
pub struct PerformanceDesc {
    pub list: Vec<DescModule>,
}

/// A JSON value as `serde_json` holds it; the library only carries it.
#[verifier::external_type_specification]
#[verifier::external_body]
pub struct ExJsonValue(serde_json::Value);

/// `Clone` of `serde_json::Value` (derived in `serde_json`), used when a
/// project is copied; nothing is claimed of the copy.
pub assume_specification[ <serde_json::Value as Clone>::clone ](value: &serde_json::Value) -> (copy: serde_json::Value);

/// The details of a project.
#[derive(Clone, Debug)]
pub struct ProjectInfo {
    pub id: u64,
    pub name: String,
    pub sale_flag: String,
    pub id_bind: i64,
    pub screen_list: Vec<ScreenInfo>,
    pub performance_desc: Option<PerformanceDesc>,
    /// The project as the ticket service sent it, for display.
    pub raw_json: serde_json::Value,
}

/// One account's ticket-buying entry.
#[derive(Clone, Debug)]
pub struct BilibiliTicket {
    pub uid: i64,
    pub project_info: Option<ProjectInfo>,
    pub id_bind: usize,
    pub screen_id: String,
    pub select_ticket_id: Option<String>,
}

/// The application state that the window reads and changes.
#[derive(Clone, Debug)]
pub struct Myapp {
    pub bilibiliticket_list: Vec<BilibiliTicket>,
    /// Set while the project-detail window is requested.
    pub show_screen_info: Option<i64>,
    pub is_loading: bool,
    pub selected_screen_index: Option<usize>,
    pub selected_screen_id: Option<i64>,
    pub selected_ticket_id: Option<i64>,
    pub ticket_id: String,
    /// Set to the account's uid when a ticket type waits for confirmation.
    pub confirm_ticket_info: Option<String>,
    pub show_log_window: bool,
}

// ---------------------------------------------------------------------------
// Finding the account and opening the window
// ---------------------------------------------------------------------------

/// `i` is the first entry of `list` with the given uid.
pub open spec fn first_with_uid(list: Seq<BilibiliTicket>, uid: i64, i: int) -> bool {
    &&& 0 <= i < list.len()
    &&& list[i].uid == uid
    &&& forall|j: int| 0 <= j < i ==> list[j].uid != uid
}

/// The index of the first entry with the given uid, if any.
pub fn find_ticket_index(list: &Vec<BilibiliTicket>, uid: i64) -> (found: Option<usize>)
    ensures
        match found {
            Some(i) => first_with_uid(list@, uid, i as int),
            None => forall|j: int| 0 <= j < list@.len() ==> list@[j].uid != uid,
        },
{
    let mut i: usize = 0;
    while i < list.len()
        invariant
            i <= list@.len(),
            forall|j: int| 0 <= j < i ==> list@[j].uid != uid,
        decreases list@.len() - i,
    {
        if list[i].uid == uid {
            return Some(i);
        }
        i += 1;
    }
    None
}

/// What showing the window for entry `entry` does before drawing: without
/// project details the window only reports loading; with them, loading ends,
/// the first screening is selected when none is, and the entry takes the
/// project's `id_bind`.
pub open spec fn window_opened(before: Myapp, after: Myapp, entry: int, loaded: bool) -> bool {
    let ticket = before.bilibiliticket_list@[entry];
    match ticket.project_info {
        None => {
            &&& !loaded
            &&& after == Myapp { is_loading: true, ..before }
        },
        Some(project) => {
            &&& loaded
            &&& after.bilibiliticket_list@ == before.bilibiliticket_list@.update(
                entry,
                BilibiliTicket { id_bind: project.id_bind as usize, ..ticket },
            )
            &&& after == Myapp {
                bilibiliticket_list: after.bilibiliticket_list,
                is_loading: false,
                selected_screen_index: if before.selected_screen_index is None
                    && project.screen_list@.len() > 0 {
                    Some(0usize)
                } else {
                    before.selected_screen_index
                },
                ..before
            }
        },
    }
}

/// Prepares the window of entry `entry` for a frame; returns whether the
/// project's details are there to be shown.
pub fn open_project_window(app: &mut Myapp, entry: usize) -> (loaded: bool)
    requires
        entry < old(app).bilibiliticket_list@.len(),
    ensures
        window_opened(*old(app), *final(app), entry as int, loaded),
        loaded == old(app).bilibiliticket_list@[entry as int].project_info is Some,
        final(app).bilibiliticket_list@.len() == old(app).bilibiliticket_list@.len(),
        old(app).bilibiliticket_list@[entry as int].project_info matches Some(project)
            ==> final(app).bilibiliticket_list@[entry as int].id_bind == project.id_bind as usize,
{
    let (has_screens, id_bind) = match &app.bilibiliticket_list[entry].project_info {
        Some(project) => (project.screen_list.len() > 0, project.id_bind),
        None => {
            app.is_loading = true;
            return false;
        },
    };
    app.is_loading = false;
    if app.selected_screen_index.is_none() && has_screens {
        app.selected_screen_index = Some(0);
    }
    app.bilibiliticket_list[entry].id_bind = id_bind as usize;
    true
}

/// Selects the screening at index `index` of the project's list.
pub fn select_screen(app: &mut Myapp, index: usize)
    ensures
        *final(app) == (Myapp { selected_screen_index: Some(index), ..*old(app) }),
{
    app.selected_screen_index = Some(index);
}

/// The screening that the window shows: the selected index, when it lies in
/// the project's list.
pub fn selected_screen(app: &Myapp, project: &ProjectInfo) -> (index: Option<usize>)
    ensures
        index == (match app.selected_screen_index {
            Some(i) => if i < project.screen_list@.len() { Some(i) } else { None },
            None => None,
        }),
{
    match app.selected_screen_index {
        Some(i) => if i < project.screen_list.len() { Some(i) } else { None },
        None => None,
    }
}

/// Asks for the log window, as the monitor tab does when it is drawn.
pub fn request_log_window(app: &mut Myapp)
    ensures
        *final(app) == (Myapp { show_log_window: true, ..*old(app) }),
{
    app.show_log_window = true;
}

// ---------------------------------------------------------------------------
// Choosing a ticket type and closing
// ---------------------------------------------------------------------------

/// What choosing ticket type `t` of screening `s` for entry `entry` records:
/// the screening and ticket ids in the application and in the entry, the
/// project id, and the entry's uid as the choice awaiting confirmation; the
/// window request is withdrawn.
pub open spec fn ticket_chosen(before: Myapp, after: Myapp, entry: int, s: ScreenInfo, t: TicketInfo) -> bool {
    let ticket = before.bilibiliticket_list@[entry];
    &&& after.bilibiliticket_list@.len() == before.bilibiliticket_list@.len()
    &&& forall|j: int|
        0 <= j < before.bilibiliticket_list@.len() && j != entry ==> after.bilibiliticket_list@[j]
            == before.bilibiliticket_list@[j]
    &&& after.bilibiliticket_list@[entry].uid == ticket.uid
    &&& after.bilibiliticket_list@[entry].project_info == ticket.project_info
    &&& after.bilibiliticket_list@[entry].id_bind == ticket.id_bind
    &&& after.bilibiliticket_list@[entry].screen_id@ == decimal_text(s.id as nat)
    &&& after.bilibiliticket_list@[entry].select_ticket_id is Some
    &&& after.bilibiliticket_list@[entry].select_ticket_id->0@ == decimal_text(t.id as nat)
    &&& after.selected_screen_id == Some(s.id as i64)
    &&& after.selected_ticket_id == Some(t.id as i64)
    &&& after.show_screen_info is None
    &&& after.ticket_id@ == decimal_text(t.project_id as nat)
    &&& after.confirm_ticket_info is Some
    &&& after.confirm_ticket_info->0@ == signed_decimal_text(ticket.uid as int)
    &&& after.is_loading == before.is_loading
    &&& after.selected_screen_index == before.selected_screen_index
    &&& after.show_log_window == before.show_log_window
}

/// Records the choice of ticket type `ticket_index` of screening
/// `screen_index` of the entry's project.  Returns whether the ticket type is
/// on sale; the choice is recorded either way, and an order for a type that
/// is not on sale is still attempted.
pub fn choose_ticket(app: &mut Myapp, entry: usize, screen_index: usize, ticket_index: usize) -> (on_sale: bool)
    requires
        entry < old(app).bilibiliticket_list@.len(),
        old(app).bilibiliticket_list@[entry as int].project_info is Some,
        screen_index < old(app).bilibiliticket_list@[entry as int].project_info->0.screen_list@.len(),
        ticket_index < old(app).bilibiliticket_list@[entry as int].project_info->0.screen_list@[screen_index as int].ticket_list@.len(),
    ensures
        ({
            let s = old(app).bilibiliticket_list@[entry as int].project_info->0.screen_list@[screen_index as int];
            let t = s.ticket_list@[ticket_index as int];
            &&& ticket_chosen(*old(app), *final(app), entry as int, s, t)
            &&& on_sale == t.clickable
        }),
{
    let (screen_id, ticket_id, project_id, on_sale) = match &app.bilibiliticket_list[entry].project_info {
        Some(project) => {
            let screen = &project.screen_list[screen_index];
            let ticket = &screen.ticket_list[ticket_index];
            (screen.id, ticket.id, ticket.project_id, ticket.clickable)
        },
        None => {
            return false;
        },
    };
    let uid = app.bilibiliticket_list[entry].uid;
    app.selected_screen_id = Some(screen_id as i64);
    app.selected_ticket_id = Some(ticket_id as i64);
    app.show_screen_info = None;
    app.bilibiliticket_list[entry].screen_id = u64_text(screen_id);
    app.ticket_id = u64_text(project_id);
    app.bilibiliticket_list[entry].select_ticket_id = Some(u64_text(ticket_id));
    app.confirm_ticket_info = Some(i64_text(uid));
    on_sale
}

/// What the end of a frame does: once the window is no longer open, its
/// request is withdrawn and the entry forgets the project's details, so that
/// they are fetched anew next time.
pub open spec fn frame_finished(before: Myapp, after: Myapp, entry: int, still_open: bool) -> bool {
    if still_open {
        after == before
    } else {
        let ticket = before.bilibiliticket_list@[entry];
        &&& after.bilibiliticket_list@ == before.bilibiliticket_list@.update(
            entry,
            BilibiliTicket { project_info: None, ..ticket },
        )
        &&& after == Myapp {
            bilibiliticket_list: after.bilibiliticket_list,
            show_screen_info: None,
            ..before
        }
    }
}

/// Ends a frame of the window of entry `entry`.  `window_open` is whether the
/// window is still open after drawing; `close_requested` whether its close
/// button was pressed.
pub fn finish_frame(app: &mut Myapp, entry: usize, window_open: bool, close_requested: bool)
    requires
        entry < old(app).bilibiliticket_list@.len(),
    ensures
        frame_finished(*old(app), *final(app), entry as int, window_open && !close_requested),
{
    let mut open = window_open;
    if close_requested {
        open = false;
    }
    if !open {
        app.show_screen_info = None;
        app.bilibiliticket_list[entry].project_info = None;
    }
}

// ---------------------------------------------------------------------------
// Statuses and labels
// ---------------------------------------------------------------------------

/// How a sale flag's display name is shown: each known status has a colour
/// of its own, any other name the default text colour.
#[derive(PartialEq, Eq, Structural, Clone, Copy, Debug)]
pub enum SaleStatus {
    /// "在售"
    OnSale,
    /// "预售"
    PreSale,
    /// "售罄"
    SoldOut,
    Other,
}

pub open spec fn sale_status_of(flag: Seq<char>) -> SaleStatus {
    if flag == "在售"@ {
        SaleStatus::OnSale
    } else if flag == "预售"@ {
        SaleStatus::PreSale
    } else if flag == "售罄"@ {
        SaleStatus::SoldOut
    } else {
        SaleStatus::Other
    }
}

/// The status that a sale flag's display name stands for.
pub fn sale_status(flag: &str) -> (status: SaleStatus)
    ensures
        status == sale_status_of(flag@),
{
    if str_equals(flag, "在售") {
        SaleStatus::OnSale
    } else if str_equals(flag, "预售") {
        SaleStatus::PreSale
    } else if str_equals(flag, "售罄") {
        SaleStatus::SoldOut
    } else {
        SaleStatus::Other
    }
}

/// The action offered for a ticket type.
#[derive(PartialEq, Eq, Structural, Clone, Copy, Debug)]
pub enum TicketAction {
    /// The ticket type is on sale: "选择".
    Select,
    /// Sales have not started yet: "定时预选".
    ScheduledPreselect,
    /// "不可选".
    Unavailable,
}

pub open spec fn ticket_action_of(ticket: TicketInfo) -> TicketAction {
    if ticket.clickable {
        TicketAction::Select
    } else if ticket.sale_flag_number == 1 {
        TicketAction::ScheduledPreselect
    } else {
        TicketAction::Unavailable
    }
}

/// The action offered for a ticket type: choosing it when it is on sale,
/// scheduling a preselection when its sale flag number is 1.
pub fn ticket_action(ticket: &TicketInfo) -> (action: TicketAction)
    ensures
        action == ticket_action_of(*ticket),
        ticket.clickable ==> action == TicketAction::Select,
        !ticket.clickable && ticket.sale_flag_number == 1 ==> action == TicketAction::ScheduledPreselect,
        !ticket.clickable && ticket.sale_flag_number != 1 ==> action == TicketAction::Unavailable,
{
    if ticket.clickable {
        TicketAction::Select
    } else if ticket.sale_flag_number == 1 {
        TicketAction::ScheduledPreselect
    } else {
        TicketAction::Unavailable
    }
}

impl TicketAction {
    /// The button text of the action.
    pub fn label(&self) -> (text: String)
        ensures
            text@ == match *self {
                TicketAction::Select => "选择"@,
                TicketAction::ScheduledPreselect => "定时预选"@,
                TicketAction::Unavailable => "不可选"@,
            },
    {
        match self {
            TicketAction::Select => String::from_str("选择"),
            TicketAction::ScheduledPreselect => String::from_str("定时预选"),
            TicketAction::Unavailable => String::from_str("不可选"),
        }
    }
}

/// The project's status line: `状态: ` and the sale flag.
pub fn project_status_label(project: &ProjectInfo) -> (text: String)
    ensures
        text@ == "状态: "@ + project.sale_flag@,
{
    let mut text = String::from_str("状态: ");
    text.append(project.sale_flag.as_str());
    text
}

/// A screening's button text: its name and, in brackets, its sale status.
pub fn screen_button_label(screen: &ScreenInfo) -> (text: String)
    ensures
        text@ == screen.name@ + " ("@ + screen.sale_flag.display_name@ + ")"@,
{
    let mut text = screen.name.clone();
    text.append(" (");
    text.append(screen.sale_flag.display_name.as_str());
    text.append(")");
    text
}

/// The project id line: `项目ID: ` and the id in decimal.
pub fn project_id_label(project: &ProjectInfo) -> (text: String)
    ensures
        text@ == "项目ID: "@ + decimal_text(project.id as nat),
{
    let mut text = String::from_str("项目ID: ");
    let digits = u64_text(project.id);
    text.append(digits.as_str());
    text
}

// ---------------------------------------------------------------------------
// Basic information of a project
// ---------------------------------------------------------------------------

/// The (title, content) line of a details entry: one line when both members
/// are strings, none otherwise.
pub open spec fn field_lines(field: InfoField) -> Seq<(Seq<char>, Seq<char>)> {
    match (field.title, field.content) {
        (Some(title), Some(content)) => seq![(title@, content@)],
        _ => Seq::empty(),
    }
}

/// The lines of a list of details entries, in order.
pub open spec fn fields_lines(fields: Seq<InfoField>) -> Seq<(Seq<char>, Seq<char>)>
    decreases fields.len(),
{
    if fields.len() == 0 {
        Seq::empty()
    } else {
        fields_lines(fields.drop_last()) + field_lines(fields.last())
    }
}

/// The lines of a description module: those of its details when it is the
/// `base_info` module and its details are an array.
pub open spec fn module_lines(module: DescModule) -> Seq<(Seq<char>, Seq<char>)> {
    if module.module@ == "base_info"@ {
        match module.details {
            Some(fields) => fields_lines(fields@),
            None => Seq::empty(),
        }
    } else {
        Seq::empty()
    }
}

/// The lines of a list of description modules, in order.
pub open spec fn modules_lines(modules: Seq<DescModule>) -> Seq<(Seq<char>, Seq<char>)>
    decreases modules.len(),
{
    if modules.len() == 0 {
        Seq::empty()
    } else {
        modules_lines(modules.drop_last()) + module_lines(modules.last())
    }
}

/// The basic-information lines of a project.
pub open spec fn base_info_of(project: ProjectInfo) -> Seq<(Seq<char>, Seq<char>)> {
    match project.performance_desc {
        Some(desc) => modules_lines(desc.list@),
        None => Seq::empty(),
    }
}

/// The text view of a list of lines.
pub open spec fn lines_view(lines: Seq<(String, String)>) -> Seq<(Seq<char>, Seq<char>)> {
    Seq::new(lines.len(), |i: int| (lines[i].0@, lines[i].1@))
}

/// Appends the lines of the given details entries to `lines`.
fn push_field_lines(lines: &mut Vec<(String, String)>, fields: &Vec<InfoField>)
    ensures
        lines_view(final(lines)@) == lines_view(old(lines)@) + fields_lines(fields@),
{
    let ghost start = lines_view(lines@);
    let mut i: usize = 0;
    while i < fields.len()
        invariant
            i <= fields@.len(),
            lines_view(lines@) == start + fields_lines(fields@.take(i as int)),
        decreases fields@.len() - i,
    {
        assert(fields@.take(i + 1).drop_last() =~= fields@.take(i as int));
        let ghost before = lines@;
        match (&fields[i].title, &fields[i].content) {
            (Some(title), Some(content)) => {
                lines.push((title.clone(), content.clone()));
                assert(lines_view(lines@) =~= lines_view(before) + field_lines(fields@[i as int]));
            },
            _ => {
                assert(field_lines(fields@[i as int]) =~= Seq::<(Seq<char>, Seq<char>)>::empty());
            },
        }
        assert(lines_view(lines@) =~= start + fields_lines(fields@.take(i + 1)));
        i += 1;
    }
    assert(fields@.take(fields@.len() as int) =~= fields@);
}

/// The (title, content) pairs shown under the project's basic information:
/// for each `base_info` module of the description whose details are an
/// array, each entry whose title and content are both strings.
pub fn base_info_lines(project: &ProjectInfo) -> (lines: Vec<(String, String)>)
    ensures
        lines_view(lines@) == base_info_of(*project),
{
    let mut lines: Vec<(String, String)> = Vec::new();
    assert(lines_view(lines@) =~= Seq::<(Seq<char>, Seq<char>)>::empty());
    match &project.performance_desc {
        None => {},
        Some(desc) => {
            let mut i: usize = 0;
            while i < desc.list.len()
                invariant
                    i <= desc.list@.len(),
                    lines_view(lines@) == modules_lines(desc.list@.take(i as int)),
                decreases desc.list@.len() - i,
            {
                assert(desc.list@.take(i + 1).drop_last() =~= desc.list@.take(i as int));
                let ghost before = lines_view(lines@);
                let module = &desc.list[i];
                if str_equals(module.module.as_str(), "base_info") {
                    match &module.details {
                        Some(fields) => {
                            push_field_lines(&mut lines, fields);
                        },
                        None => {
                            assert(before + module_lines(*module) =~= before);
                        },
                    }
                } else {
                    assert(before + module_lines(*module) =~= before);
                }
                i += 1;
            }
            assert(desc.list@.take(desc.list@.len() as int) =~= desc.list@);
        },
    }
    lines
}

// ---------------------------------------------------------------------------
// Timestamps
// ---------------------------------------------------------------------------

/// The seconds that `chrono::DateTime::from_timestamp` accepts (with zero
/// nanoseconds): from 262144 BCE January 1 00:00:00 to 262142 CE
/// December 31 23:59:59, UTC.
pub open spec fn clock_range_contains(seconds: int) -> bool {
    -8334601228800 <= seconds <= 8210266876799
}

/// What `DateTime::<Local>::format("%Y-%m-%d %H:%M:%S").to_string()` writes
/// for the instant `seconds` (Unix seconds) seen at the UTC offset `offset`
/// (seconds east of UTC).
pub uninterp spec fn local_time_format(seconds: i64, offset: i32) -> Seq<char>;

/// Calls `chrono::Local.timestamp_opt(seconds, 0)` and, for its single local
/// time, returns the UTC offset in use (`offset().local_minus_utc()`) and
/// the time formatted with `"%Y-%m-%d %H:%M:%S"`.
///
/// `timestamp_opt` gives a single local time exactly when
/// `DateTime::from_timestamp` accepts the seconds, and no local time
/// otherwise.  Which offset applies depends on the machine's time zone, so
/// only its range (that of `FixedOffset`) is stated; given the offset, the
/// text is named by `local_time_format`.
#[verifier::external_body]
fn local_time_text(seconds: i64) -> (local: Option<(i32, String)>)
    ensures
        local is Some <==> clock_range_contains(seconds as int),
        local matches Some((offset, text)) ==> -86400 < offset < 86400
            && text@ == local_time_format(seconds, offset),
{
    match chrono::Local.timestamp_opt(seconds, 0) {
        chrono::LocalResult::Single(time) => {
            Some((time.offset().local_minus_utc(), time.format("%Y-%m-%d %H:%M:%S").to_string()))
        },
        chrono::LocalResult::Ambiguous(_, _) => None,
        chrono::LocalResult::None => None,
    }
}

/// The text shown for what the clock library gave: the formatted local time,
/// or the invalid-time notice when it gave none.
pub fn describe_local_time(local: Option<(i32, String)>) -> (text: String)
    ensures
        text@ == match local {
            Some((_, t)) => t@,
            None => "无效时间"@,
        },
{
    match local {
        Some((_, t)) => t,
        None => String::from_str("无效时间"),
    }
}

/// Formats a timestamp (Unix seconds) as a local time: unset when zero, an
/// overflow notice when it does not fit in an `i64`, the local time when the
/// clock library can represent it, an invalid-time notice otherwise.
pub fn format_timestamp(timestamp: usize) -> (text: String)
    ensures
        timestamp == 0 ==> text@ == "未设置"@,
        timestamp > i64::MAX ==> text@ == "时间戳溢出"@,
        0 < timestamp <= i64::MAX && clock_range_contains(timestamp as int) ==> exists|offset: i32|
            -86400 < offset < 86400 && text@ == #[trigger] local_time_format(timestamp as i64, offset),
        0 < timestamp <= i64::MAX && !clock_range_contains(timestamp as int) ==> text@
            == "无效时间"@,
{
    if timestamp == 0 {
        return String::from_str("未设置");
    }
    if timestamp as u64 > i64::MAX as u64 {
        return String::from_str("时间戳溢出");
    }
    let local = local_time_text(timestamp as i64);
    describe_local_time(local)
}

// ---------------------------------------------------------------------------
// Laws
// ---------------------------------------------------------------------------

/// The two states hold the same entries and the same window fields.
pub open spec fn same_state(a: Myapp, b: Myapp) -> bool {
    &&& a.bilibiliticket_list@ == b.bilibiliticket_list@
    &&& a.show_screen_info == b.show_screen_info
    &&& a.is_loading == b.is_loading
    &&& a.selected_screen_index == b.selected_screen_index
    &&& a.selected_screen_id == b.selected_screen_id
    &&& a.selected_ticket_id == b.selected_ticket_id
    &&& a.ticket_id == b.ticket_id
    &&& a.confirm_ticket_info == b.confirm_ticket_info
    &&& a.show_log_window == b.show_log_window
}

/// Once a frame ends with the window closed, showing the window again for
/// the same entry finds no project details: it reports loading, and the
/// window request stays withdrawn.
pub proof fn lemma_closing_forgets_project(a0: Myapp, a1: Myapp, a2: Myapp, entry: int, loaded: bool)
    requires
        0 <= entry < a0.bilibiliticket_list@.len(),
        frame_finished(a0, a1, entry, false),
        window_opened(a1, a2, entry, loaded),
    ensures
        !loaded,
        a2.is_loading,
        a2.show_screen_info is None,
        a2.bilibiliticket_list@[entry].project_info is None,
{
}

/// Preparing the window is stable: doing it a second time for the same entry
/// changes nothing and reports the same outcome, so the window can be
/// prepared on every frame.
pub proof fn lemma_opening_is_stable(a0: Myapp, a1: Myapp, a2: Myapp, entry: int, first: bool, second: bool)
    requires
        0 <= entry < a0.bilibiliticket_list@.len(),
        window_opened(a0, a1, entry, first),
        window_opened(a1, a2, entry, second),
    ensures
        second == first,
        same_state(a1, a2),
{
    if first {
        assert(a2.bilibiliticket_list@ =~= a1.bilibiliticket_list@);
    }
}

/// A window prepared with project details that list at least one screening
/// always has a screening selected.
pub proof fn lemma_opened_window_has_selection(a0: Myapp, a1: Myapp, entry: int)
    requires
        0 <= entry < a0.bilibiliticket_list@.len(),
        window_opened(a0, a1, entry, true),
        a0.bilibiliticket_list@[entry].project_info->0.screen_list@.len() > 0,
    ensures
        a1.selected_screen_index is Some,
        !a1.is_loading,
{
}

/// The action offered for a ticket type: a type on sale (`clickable`) is
/// always offered for choosing, whatever its sale flag number; a type not on
/// sale is offered a scheduled preselection exactly when its sale flag number
/// is 1, and nothing otherwise.
pub proof fn lemma_ticket_action(ticket: TicketInfo)
    ensures
        ticket.clickable ==> ticket_action_of(ticket) == TicketAction::Select,
        !ticket.clickable ==> (ticket_action_of(ticket) == TicketAction::ScheduledPreselect
            <==> ticket.sale_flag_number == 1),
        !ticket.clickable ==> ticket_action_of(ticket) != TicketAction::Select,
        !ticket.clickable && ticket.sale_flag_number != 1 ==> ticket_action_of(ticket)
            == TicketAction::Unavailable,
{
}

/// Preparing the window with project details present always binds the
/// entry to the project: its `id_bind` becomes the project's, whatever
/// screening was selected before; its other fields, the other entries and
/// the window request stay as they were, and loading ends.
pub proof fn lemma_opening_binds_project(before: Myapp, after: Myapp, entry: int, loaded: bool)
    requires
        0 <= entry < before.bilibiliticket_list@.len(),
        before.bilibiliticket_list@[entry].project_info is Some,
        window_opened(before, after, entry, loaded),
    ensures
        ({
            let old_entry = before.bilibiliticket_list@[entry];
            let project = old_entry.project_info->0;
            let new_entry = after.bilibiliticket_list@[entry];
            &&& loaded
            &&& !after.is_loading
            &&& new_entry.id_bind == project.id_bind as usize
            &&& new_entry.uid == old_entry.uid
            &&& new_entry.project_info == old_entry.project_info
            &&& new_entry.screen_id == old_entry.screen_id
            &&& new_entry.select_ticket_id == old_entry.select_ticket_id
            &&& after.bilibiliticket_list@.len() == before.bilibiliticket_list@.len()
            &&& forall|j: int| 0 <= j < before.bilibiliticket_list@.len() && j != entry
                ==> after.bilibiliticket_list@[j] == before.bilibiliticket_list@[j]
            &&& after.show_screen_info == before.show_screen_info
            &&& (before.selected_screen_index is Some ==> after.selected_screen_index
                == before.selected_screen_index)
        }),
{
}

} // verus!
