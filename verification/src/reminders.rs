//! The reminders service: its data, the adapter interface, the adapter for
//! platforms without the service, and the protocol spoken with the macOS
//! helper program (what is sent and how a reply is judged; the process itself
//! is run by the caller).

use vstd::prelude::*;
use crate::policy::{concat2, string_of};
use crate::paths::{join_path, joined_path, path_of, path_of_text};
use crate::text::{chars_of, decimal, decimal_exec, is_whitespace, is_whitespace_exec, slice_range, string_from_chars};

verus! {

/// A reminder.
#[derive(Debug)]
pub struct Reminder {
    pub id: String,
    pub title: String,
    pub list: String,
    pub completed: bool,
    pub due_date: Option<String>,
    pub priority: i32,
    pub notes: Option<String>,
    pub creation_date: Option<String>,
}

/// Parameters for listing reminders.
#[derive(Debug)]
pub struct ListParams {
    pub list: Option<String>,
    pub completed: Option<bool>,
}

/// Parameters for adding a reminder.
#[derive(Debug)]
pub struct AddParams {
    pub list: String,
    pub title: String,
    pub due_date: Option<String>,
    pub notes: Option<String>,
    pub priority: Option<i32>,
}

/// Parameters for updating a reminder.
#[derive(Debug)]
pub struct UpdateParams {
    pub id: String,
    pub title: Option<String>,
    pub due_date: Option<String>,
    pub notes: Option<String>,
    pub priority: Option<i32>,
}

/// Parameters for completing or deleting a reminder.
#[derive(Debug)]
pub struct IdParams {
    pub id: String,
}

/// The message of every operation on a platform without the service.
pub open spec fn unavailable_message() -> Seq<char> {
    "Reminders service not available on this platform"@
}

fn unavailable() -> (r: String)
    ensures
        r@ == unavailable_message(),
{
    "Reminders service not available on this platform".to_owned()
}

/// A reminders backend.
pub trait RemindersAdapter {
    /// The reminders, filtered as the parameters say.
    fn list(&self, params: ListParams) -> Result<Vec<Reminder>, String>;

    /// Adds a reminder.
    fn add(&self, params: AddParams) -> Result<Reminder, String>;

    /// Updates a reminder.
    fn update(&self, params: UpdateParams) -> Result<Reminder, String>;

    /// Marks a reminder as completed.
    fn complete(&self, params: IdParams) -> Result<Reminder, String>;

    /// Deletes a reminder.
    fn delete(&self, params: IdParams) -> Result<(), String>;

    /// Whether the backend can serve on this machine.
    fn is_available(&self) -> bool;
}

/// The backend of platforms without a reminders service: it refuses every
/// operation.
#[derive(Debug, Clone, Copy)]
pub struct StubRemindersAdapter;

impl RemindersAdapter for StubRemindersAdapter {
    fn list(&self, params: ListParams) -> (r: Result<Vec<Reminder>, String>)
        ensures
            r matches Err(m) && m@ == unavailable_message(),
    {
        Err(unavailable())
    }

    fn add(&self, params: AddParams) -> (r: Result<Reminder, String>)
        ensures
            r matches Err(m) && m@ == unavailable_message(),
    {
        Err(unavailable())
    }

    fn update(&self, params: UpdateParams) -> (r: Result<Reminder, String>)
        ensures
            r matches Err(m) && m@ == unavailable_message(),
    {
        Err(unavailable())
    }

    fn complete(&self, params: IdParams) -> (r: Result<Reminder, String>)
        ensures
            r matches Err(m) && m@ == unavailable_message(),
    {
        Err(unavailable())
    }

    fn delete(&self, params: IdParams) -> (r: Result<(), String>)
        ensures
            r matches Err(m) && m@ == unavailable_message(),
    {
        Err(unavailable())
    }

    fn is_available(&self) -> (r: bool)
        ensures
            !r,
    {
        false
    }
}

// ---------------------------------------------------------------------------
// The macOS helper protocol
// ---------------------------------------------------------------------------

/// A request to the helper program.
#[derive(Debug)]
pub struct HelperRequest {
    pub action: String,
    pub list: Option<String>,
    pub completed: Option<bool>,
    pub id: Option<String>,
    pub title: Option<String>,
    pub due_date: Option<String>,
    pub notes: Option<String>,
    pub priority: Option<i32>,
}

/// A reply of the helper program.
#[derive(Debug)]
pub struct HelperResponse {
    pub reminders: Option<Vec<Reminder>>,
    pub error: Option<String>,
    pub success: Option<bool>,
}

/// The adapter that speaks to the macOS helper program.
#[derive(Debug)]
pub struct MacOSRemindersAdapter {
    helper_path: std::path::PathBuf,
}

/// Judges a reply: one that carries an error is refused with it.
pub fn check_helper_response(response: HelperResponse) -> (r: Result<HelperResponse, String>)
    ensures
        response.error is None ==> r == Ok::<HelperResponse, String>(response),
        response.error matches Some(e) ==> r matches Err(m) && m@ == "Helper returned error: "@ + e@,
{
    match &response.error {
        Some(e) => Err(concat2("Helper returned error: ", e.as_str())),
        None => Ok(response),
    }
}

/// The reminders of a reply; none when it carries none.
pub fn listed_reminders(response: HelperResponse) -> (r: Vec<Reminder>)
    ensures
        response.reminders matches Some(v) ==> r@ == v@,
        response.reminders is None ==> r@.len() == 0,
{
    match response.reminders {
        Some(v) => v,
        None => Vec::new(),
    }
}

/// The reminder a reply returns: the last one it carries.
pub fn returned_reminder(response: HelperResponse) -> (r: Result<Reminder, String>)
    ensures
        match response.reminders {
            Some(v) => if v@.len() > 0 {
                r == Ok::<Reminder, String>(v@.last())
            } else {
                r matches Err(m) && m@ == "No reminder returned from helper"@
            },
            None => r matches Err(m) && m@ == "No reminder returned from helper"@,
        },
{
    match response.reminders {
        Some(mut v) => match v.pop() {
            Some(last) => Ok(last),
            None => Err("No reminder returned from helper".to_owned()),
        },
        None => Err("No reminder returned from helper".to_owned()),
    }
}

/// `s` without the whitespace at both ends.
pub open spec fn trim_ws(s: Seq<char>) -> Seq<char>
    decreases s.len(),
{
    if s.len() > 0 && is_whitespace(s[0]) {
        trim_ws(s.drop_first())
    } else if s.len() > 0 && is_whitespace(s.last()) {
        trim_ws(s.drop_last())
    } else {
        s
    }
}

/// `s` without the whitespace at both ends.
pub fn trim_ws_exec(s: &str) -> (r: String)
    ensures
        r@ == trim_ws(s@),
{
    let c = chars_of(s);
    let mut i: usize = 0;
    let mut j: usize = c.len();
    assert(c@.subrange(0, c@.len() as int) == c@);
    while i < j && (is_whitespace_exec(c[i]) || is_whitespace_exec(c[j - 1]))
        invariant
            i <= j <= c@.len(),
            c@ == s@,
            trim_ws(c@.subrange(i as int, j as int)) == trim_ws(s@),
        decreases j - i,
    {
        let ghost sub = c@.subrange(i as int, j as int);
        if is_whitespace_exec(c[i]) {
            assert(sub.drop_first() == c@.subrange(i + 1, j as int));
            i = i + 1;
        } else {
            assert(sub.drop_last() == c@.subrange(i as int, j - 1));
            j = j - 1;
        }
    }
    string_from_chars(slice_range(c.as_slice(), i, j).as_slice())
}

/// The decimal text of a signed number.
pub open spec fn signed_decimal(n: int) -> Seq<char> {
    if n < 0 {
        seq!['-'] + decimal((-n) as nat)
    } else {
        decimal(n as nat)
    }
}

/// The decimal text of a signed number.
pub fn signed_decimal_exec(n: i32) -> (r: String)
    ensures
        r@ == signed_decimal(n as int),
{
    if n < 0 {
        let magnitude: u64 = (0i64 - (n as i64)) as u64;
        let mut r = "-".to_owned();
        proof {
            reveal_strlit("-");
        }
        let digits = string_from_chars(decimal_exec(magnitude).as_slice());
        r.append(digits.as_str());
        r
    } else {
        string_from_chars(decimal_exec(n as u64).as_slice())
    }
}

/// The error of a helper that exited unsuccessfully, from its exit code (if
/// it had one) and the first line of its error output (if it could be read).
pub open spec fn helper_exit_message(code: Option<i32>, stderr_line: Option<Seq<char>>) -> Seq<char> {
    "Helper process exited with status "@ + signed_decimal(
        match code {
            Some(c) => c as int,
            None => -1,
        },
    ) + ": "@ + match stderr_line {
        Some(l) => trim_ws(l),
        None => "Unknown error"@,
    }
}

/// The error of a helper that exited unsuccessfully.
pub fn helper_exit_error(code: Option<i32>, stderr_line: Option<&str>) -> (r: String)
    ensures
        r@ == helper_exit_message(code, match stderr_line {
            Some(l) => Some(l@),
            None => None,
        }),
{
    let c: i32 = match code {
        Some(c) => c,
        None => -1,
    };
    let mut r = concat2("Helper process exited with status ", signed_decimal_exec(c).as_str());
    r.append(": ");
    match stderr_line {
        Some(l) => {
            let t = trim_ws_exec(l);
            r.append(t.as_str());
        },
        None => {
            r.append("Unknown error");
        },
    }
    r
}

impl HelperRequest {
    /// The request that lists reminders.
    pub fn for_list(params: ListParams) -> (r: Self)
        ensures
            r.action@ == "list"@,
            r.list == params.list,
            r.completed == params.completed,
            r.id is None && r.title is None && r.due_date is None && r.notes is None
                && r.priority is None,
    {
        HelperRequest {
            action: string_of("list"),
            list: params.list,
            completed: params.completed,
            id: None,
            title: None,
            due_date: None,
            notes: None,
            priority: None,
        }
    }

    /// The request that adds a reminder.
    pub fn for_add(params: AddParams) -> (r: Self)
        ensures
            r.action@ == "add"@,
            r.list == Some(params.list),
            r.title == Some(params.title),
            r.due_date == params.due_date,
            r.notes == params.notes,
            r.priority == params.priority,
            r.completed is None && r.id is None,
    {
        HelperRequest {
            action: string_of("add"),
            list: Some(params.list),
            completed: None,
            id: None,
            title: Some(params.title),
            due_date: params.due_date,
            notes: params.notes,
            priority: params.priority,
        }
    }

    /// The request that updates a reminder.
    pub fn for_update(params: UpdateParams) -> (r: Self)
        ensures
            r.action@ == "update"@,
            r.id == Some(params.id),
            r.title == params.title,
            r.due_date == params.due_date,
            r.notes == params.notes,
            r.priority == params.priority,
            r.list is None && r.completed is None,
    {
        HelperRequest {
            action: string_of("update"),
            list: None,
            completed: None,
            id: Some(params.id),
            title: params.title,
            due_date: params.due_date,
            notes: params.notes,
            priority: params.priority,
        }
    }

    /// The request that completes a reminder.
    pub fn for_complete(params: IdParams) -> (r: Self)
        ensures
            r.action@ == "complete"@,
            r.id == Some(params.id),
            r.list is None && r.completed is None && r.title is None && r.due_date is None
                && r.notes is None && r.priority is None,
    {
        HelperRequest {
            action: string_of("complete"),
            list: None,
            completed: None,
            id: Some(params.id),
            title: None,
            due_date: None,
            notes: None,
            priority: None,
        }
    }

    /// The request that deletes a reminder.
    pub fn for_delete(params: IdParams) -> (r: Self)
        ensures
            r.action@ == "delete"@,
            r.id == Some(params.id),
            r.list is None && r.completed is None && r.title is None && r.due_date is None
                && r.notes is None && r.priority is None,
    {
        HelperRequest {
            action: string_of("delete"),
            list: None,
            completed: None,
            id: Some(params.id),
            title: None,
            due_date: None,
            notes: None,
            priority: None,
        }
    }
}

impl MacOSRemindersAdapter {
    /// An adapter that runs the helper at `helper_path`.
    pub fn new(helper_path: std::path::PathBuf) -> (a: Self)
        ensures
            a.spec_helper_path() == helper_path,
    {
        MacOSRemindersAdapter { helper_path }
    }

    /// The helper program the adapter runs.
    pub closed spec fn spec_helper_path(&self) -> std::path::PathBuf {
        self.helper_path
    }

    /// The helper program the adapter runs.
    pub fn helper_path(&self) -> (r: &std::path::PathBuf)
        ensures
            *r == self.spec_helper_path(),
    {
        &self.helper_path
    }
}

/// The reminders backend of a platform.
#[derive(Debug)]
pub enum PlatformRemindersAdapter {
    MacOS(MacOSRemindersAdapter),
    Stub(StubRemindersAdapter),
}

/// The backend of the platform: the helper adapter on macOS, the stub
/// elsewhere.
pub fn create_adapter(on_macos: bool, helper_path: std::path::PathBuf) -> (r: PlatformRemindersAdapter)
    ensures
        on_macos ==> (r matches PlatformRemindersAdapter::MacOS(a) && a.spec_helper_path()
            == helper_path),
        !on_macos ==> r is Stub,
{
    if on_macos {
        PlatformRemindersAdapter::MacOS(MacOSRemindersAdapter::new(helper_path))
    } else {
        PlatformRemindersAdapter::Stub(StubRemindersAdapter)
    }
}


/// The places the reminders helper is looked for, in order: the path named
/// by `REMINDERS_HELPER_PATH` (`env_path`); next to the program (in `exe_dir`),
/// in its `helpers/` directory, and in
/// `helpers/reminders-helper-macos/` beside that directory (under
/// `exe_dir_parent`); and last the bare name, to be looked up in `PATH`. The
/// first one that exists is used, the bare name when none does.
pub open spec fn helper_candidates_spec(
    env_path: Option<Seq<char>>,
    exe_dir: Option<std::path::PathBuf>,
    exe_dir_parent: Option<std::path::PathBuf>,
) -> Seq<std::path::PathBuf> {
    (match env_path {
        Some(p) => seq![path_of_text(p)],
        None => Seq::empty(),
    }) + (match exe_dir {
        Some(d) => seq![
            joined_path(d, "reminders-helper"@),
            joined_path(joined_path(d, "helpers"@), "reminders-helper"@),
        ] + match exe_dir_parent {
            Some(q) => seq![joined_path(q, "helpers/reminders-helper-macos/reminders-helper"@)],
            None => Seq::empty(),
        },
        None => Seq::empty(),
    }) + seq![path_of_text("reminders-helper"@)]
}

/// The places the reminders helper is looked for, in order.
pub fn helper_candidates(
    env_path: Option<&str>,
    exe_dir: Option<&std::path::PathBuf>,
    exe_dir_parent: Option<&std::path::PathBuf>,
) -> (r: Vec<std::path::PathBuf>)
    ensures
        r@ == helper_candidates_spec(
            match env_path {
                Some(p) => Some(p@),
                None => None,
            },
            match exe_dir {
                Some(d) => Some(*d),
                None => None,
            },
            match exe_dir_parent {
                Some(q) => Some(*q),
                None => None,
            },
        ),
{
    let mut r: Vec<std::path::PathBuf> = Vec::new();
    match env_path {
        Some(p) => r.push(path_of(p)),
        None => {},
    }
    let ghost first = r@;
    match exe_dir {
        Some(d) => {
            r.push(join_path(d, "reminders-helper"));
            let helpers = join_path(d, "helpers");
            r.push(join_path(&helpers, "reminders-helper"));
            match exe_dir_parent {
                Some(q) => r.push(join_path(q, "helpers/reminders-helper-macos/reminders-helper")),
                None => {},
            }
        },
        None => {},
    }
    r.push(path_of("reminders-helper"));
    let ghost e = match env_path {
        Some(p) => Some(p@),
        None => None::<Seq<char>>,
    };
    let ghost dd = match exe_dir {
        Some(d) => Some(*d),
        None => None::<std::path::PathBuf>,
    };
    let ghost qq = match exe_dir_parent {
        Some(q) => Some(*q),
        None => None::<std::path::PathBuf>,
    };
    assert(r@ =~= helper_candidates_spec(e, dd, qq));
    r
}

} // verus!
