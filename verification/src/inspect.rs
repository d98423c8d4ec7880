//! What the inspection of one stream knows of its task and its user, and how
//! it settles a value between the user, the site and the common default.

use crate::shared::share;
use crate::smtp::SmtpInterceptionConfig;
use std::sync::Arc;
use std::time::Duration;
use uuid::Uuid;
use vstd::prelude::*;

verus! {

/// The identity of a task, of the crate `uuid`. It is kept and handed on;
/// nothing of its inside is known here.
#[verifier::external_type_specification]
#[verifier::external_body]
pub struct ExUuid(Uuid);

/// `Clone::clone` of a `Uuid`, which the crate derives for a type that is
/// `Copy`: the identity is copied as it is.
pub assume_specification[ <Uuid as Clone>::clone ](id: &Uuid) -> (copy: Uuid)
    ensures
        copy == *id,
;

/// What the inspection reads of a user.
#[derive(Debug)]
pub struct User {
    /// How long the user lets it wait for the header of an HTTP response.
    pub http_rsp_hdr_recv_timeout: Option<Duration>,
    /// How many characters of a URI the user lets it log.
    pub log_uri_max_chars: Option<usize>,
    /// How many idle checks the user lets a task fail in a row.
    pub task_max_idle_count: i32,
    /// Whether the user is blocked.
    pub blocked: bool,
}

/// What the inspection reads of the site of a user.
#[derive(Debug)]
pub struct UserSite {
    /// How long the site lets it wait for the header of an HTTP response.
    pub http_rsp_hdr_recv_timeout: Option<Duration>,
}

/// The first of two optional values that is there.
pub open spec fn first_of<T>(preferred: Option<T>, fallback: Option<T>) -> Option<T> {
    match preferred {
        Some(_) => preferred,
        None => fallback,
    }
}

/// The value that is there, or the default.
pub open spec fn value_or<T>(value: Option<T>, default: T) -> T {
    match value {
        Some(v) => v,
        None => default,
    }
}

/// The user of a task that is inspected.
#[derive(Clone, Debug)]
pub struct StreamInspectUserContext {
    /// The name that the user gave, where it differs from the user's own.
    pub raw_user_name: Option<String>,
    /// The user.
    pub user: Arc<User>,
    /// The site of the user that the task goes to, if it is a known one.
    pub user_site: Option<Arc<UserSite>>,
}

impl StreamInspectUserContext {
    /// The timeout of the site, if the task has a site and the site has one.
    pub open spec fn site_timeout(self) -> Option<Duration> {
        match self.user_site {
            Some(site) => site.http_rsp_hdr_recv_timeout,
            None => None,
        }
    }

    /// How long to wait for the header of an HTTP response: as the site says,
    /// else as the user says, else nothing is said.
    pub open spec fn timeout(self) -> Option<Duration> {
        first_of(self.site_timeout(), self.user.http_rsp_hdr_recv_timeout)
    }

    /// How long to wait for the header of an HTTP response: the timeout of
    /// the site where the task has a site and the site has one, else that of
    /// the user, which may have none either.
    pub fn http_rsp_hdr_recv_timeout(&self) -> (timeout: Option<Duration>)
        ensures
            timeout == self.timeout(),
    {
        let of_site = match &self.user_site {
            Some(site) => site.http_rsp_hdr_recv_timeout,
            None => None,
        };
        match of_site {
            Some(t) => Some(t),
            None => self.user.http_rsp_hdr_recv_timeout,
        }
    }
}

/// What is noted of the task that is inspected.
#[derive(Clone, Debug)]
pub struct StreamInspectTaskNotes {
    /// The identity of the task.
    pub task_id: Uuid,
    /// The worker that runs the task, if it is bound to one.
    pub worker_id: Option<usize>,
    /// The user of the task, if it has one.
    pub user_ctx: Option<StreamInspectUserContext>,
}

/// The values that hold where neither user nor site says otherwise.
#[derive(Clone, Debug)]
pub struct InspectDefaults {
    /// How many idle checks the server lets a task fail in a row.
    pub task_max_idle_count: i32,
    /// How long the server waits between two idle checks of a task.
    pub task_idle_check_duration: Duration,
    /// How many characters of a URI are logged.
    pub log_uri_max_chars: usize,
    /// How long to wait for the header of an HTTP/1 response.
    pub h1_rsp_head_recv_timeout: Duration,
    /// How long to wait for the header of an HTTP/2 response.
    pub h2_rsp_head_recv_timeout: Duration,
    /// The timeouts of the interception of SMTP.
    pub smtp_interception: SmtpInterceptionConfig,
}

/// What checks whether a task has gone idle.
#[derive(Clone, Debug)]
pub struct ServerIdleChecker {
    /// How long to wait between two checks.
    pub idle_duration: Duration,
    /// The user of the task, if it has one.
    pub user: Option<Arc<User>>,
    /// How many checks the task may fail in a row.
    pub task_max_idle_count: i32,
}

/// The context in which one stream is inspected.
#[derive(Clone, Debug)]
pub struct StreamInspectContext {
    defaults: InspectDefaults,
    task_notes: StreamInspectTaskNotes,
    inspection_depth: usize,
    task_max_idle_count: i32,
}

/// What a context holds.
pub struct InspectView {
    /// The values that hold where neither user nor site says otherwise.
    pub defaults: InspectDefaults,
    /// What is noted of the task.
    pub task_notes: StreamInspectTaskNotes,
    /// How many protocols lie around the one that is inspected now.
    pub inspection_depth: nat,
    /// How many idle checks the task may fail in a row.
    pub task_max_idle_count: int,
}

impl View for StreamInspectContext {
    type V = InspectView;

    closed spec fn view(&self) -> InspectView {
        InspectView {
            defaults: self.defaults,
            task_notes: self.task_notes,
            inspection_depth: self.inspection_depth as nat,
            task_max_idle_count: self.task_max_idle_count as int,
        }
    }
}

impl InspectView {
    /// The timeout that the user of the task asks for, if there is a user and
    /// either the site or the user has one.
    pub open spec fn user_timeout(self) -> Option<Duration> {
        match self.task_notes.user_ctx {
            Some(ctx) => ctx.timeout(),
            None => None,
        }
    }
}

impl StreamInspectContext {
    /// The context of a task at the start of its inspection, at depth zero.
    /// The task may fail as many idle checks as its user allows, or as the
    /// server allows where it has no user.
    pub fn new(defaults: InspectDefaults, task_notes: StreamInspectTaskNotes) -> (ctx: Self)
        ensures
            ctx@.defaults == defaults,
            ctx@.task_notes == task_notes,
            ctx@.inspection_depth == 0,
            ctx@.task_max_idle_count == match task_notes.user_ctx {
                Some(user_ctx) => user_ctx.user.task_max_idle_count,
                None => defaults.task_max_idle_count,
            },
    {
        let mut task_max_idle_count = defaults.task_max_idle_count;
        if let Some(user_ctx) = &task_notes.user_ctx {
            task_max_idle_count = user_ctx.user.task_max_idle_count;
        }
        StreamInspectContext { defaults, task_notes, inspection_depth: 0, task_max_idle_count }
    }

    /// The user of the task, if it has one.
    pub fn user(&self) -> (user: Option<&Arc<User>>)
        ensures
            user == match self@.task_notes.user_ctx {
                Some(ctx) => Some(&ctx.user),
                None => None,
            },
    {
        match &self.task_notes.user_ctx {
            Some(ctx) => Some(&ctx.user),
            None => None,
        }
    }

    /// The idle checker of the task: it waits as the server says, knows the
    /// user of the task, and lets the task fail as many checks as the context
    /// allows.
    pub fn idle_checker(&self) -> (checker: ServerIdleChecker)
        ensures
            checker.idle_duration == self@.defaults.task_idle_check_duration,
            checker.user == match self@.task_notes.user_ctx {
                Some(ctx) => Some(ctx.user),
                None => None,
            },
            checker.task_max_idle_count == self@.task_max_idle_count,
    {
        let user = match &self.task_notes.user_ctx {
            Some(ctx) => Some(share(&ctx.user)),
            None => None,
        };
        ServerIdleChecker {
            idle_duration: self.defaults.task_idle_check_duration,
            user,
            task_max_idle_count: self.task_max_idle_count,
        }
    }

    /// The name that the user gave, where the task has a user who gave one.
    pub fn raw_user_name(&self) -> (name: Option<&String>)
        ensures
            name == match self@.task_notes.user_ctx {
                Some(ctx) => match ctx.raw_user_name {
                    Some(n) => Some(&n),
                    None => None,
                },
                None => None,
            },
    {
        match &self.task_notes.user_ctx {
            Some(ctx) => ctx.raw_user_name.as_ref(),
            None => None,
        }
    }

    /// The identity of the task.
    pub fn server_task_id(&self) -> (id: &Uuid)
        ensures
            *id == self@.task_notes.task_id,
    {
        &self.task_notes.task_id
    }

    /// How many protocols lie around the one that is inspected now.
    pub fn current_inspection_depth(&self) -> (depth: usize)
        ensures
            depth == self@.inspection_depth,
    {
        self.inspection_depth
    }

    /// Goes one protocol further in.
    pub fn increase_inspection_depth(&mut self)
        requires
            old(self)@.inspection_depth < usize::MAX,
        ensures
            final(self)@ == (InspectView {
                inspection_depth: old(self)@.inspection_depth + 1,
                ..old(self)@
            }),
    {
        self.inspection_depth = self.inspection_depth + 1;
    }

    /// How many characters of a URI are logged: as the user of the task says,
    /// else the default.
    pub fn log_uri_max_chars(&self) -> (max: usize)
        ensures
            max == match self@.task_notes.user_ctx {
                Some(ctx) => value_or(ctx.user.log_uri_max_chars, self@.defaults.log_uri_max_chars),
                None => self@.defaults.log_uri_max_chars,
            },
    {
        let of_user = match &self.task_notes.user_ctx {
            Some(ctx) => ctx.user.log_uri_max_chars,
            None => None,
        };
        match of_user {
            Some(max) => max,
            None => self.defaults.log_uri_max_chars,
        }
    }

    /// How long to wait for the header of an HTTP/1 response: as the site or
    /// the user of the task says, else the default.
    pub fn h1_rsp_hdr_recv_timeout(&self) -> (timeout: Duration)
        ensures
            timeout == value_or(self@.user_timeout(), self@.defaults.h1_rsp_head_recv_timeout),
    {
        let of_user = match &self.task_notes.user_ctx {
            Some(ctx) => ctx.http_rsp_hdr_recv_timeout(),
            None => None,
        };
        match of_user {
            Some(timeout) => timeout,
            None => self.defaults.h1_rsp_head_recv_timeout,
        }
    }

    /// How long to wait for the header of an HTTP/2 response: as the site or
    /// the user of the task says, else the default.
    pub fn h2_rsp_hdr_recv_timeout(&self) -> (timeout: Duration)
        ensures
            timeout == value_or(self@.user_timeout(), self@.defaults.h2_rsp_head_recv_timeout),
    {
        let of_user = match &self.task_notes.user_ctx {
            Some(ctx) => ctx.http_rsp_hdr_recv_timeout(),
            None => None,
        };
        match of_user {
            Some(timeout) => timeout,
            None => self.defaults.h2_rsp_head_recv_timeout,
        }
    }

    /// The timeouts of the interception of SMTP.
    pub fn smtp_interception(&self) -> (config: &SmtpInterceptionConfig)
        ensures
            *config == self@.defaults.smtp_interception,
    {
        &self.defaults.smtp_interception
    }

    /// How many idle checks the task may fail in a row.
    pub fn task_max_idle_count(&self) -> (max: i32)
        ensures
            max == self@.task_max_idle_count,
    {
        self.task_max_idle_count
    }

    /// Whether the task has a user and that user is blocked.
    pub fn belongs_to_blocked_user(&self) -> (blocked: bool)
        ensures
            blocked == match self@.task_notes.user_ctx {
                Some(ctx) => ctx.user.blocked,
                None => false,
            },
    {
        match &self.task_notes.user_ctx {
            Some(ctx) => ctx.user.blocked,
            None => false,
        }
    }
}

} // verus!
