use vstd::prelude::*;
use std::collections::VecDeque;

verus! {

/// The error of a step that is not worth a dedicated kind: a message, nothing more.
#[derive(Debug, Clone)]
pub struct UnexpectedError {
    message: String,
}

/// What a fallible computation of this crate gives back when it fails without a
/// [`PullError`] to describe the failure.
pub type BoxResult<T> = Result<T, UnexpectedError>;

/// What a step of pulling data gives back.
pub type PullResult<T> = Result<T, PullError>;

impl UnexpectedError {
    pub closed spec fn message_view(&self) -> Seq<char> {
        self.message@
    }

    pub fn new(message: &str) -> (e: UnexpectedError)
        ensures
            e.message_view() == message@,
    {
        UnexpectedError { message: message.to_owned() }
    }

    pub fn new_as_box_result<T>(message: &str) -> (r: BoxResult<T>)
        ensures
            r matches Err(e) && e.message_view() == message@,
    {
        let e = UnexpectedError::new(message);
        Err(e)
    }

    /// The message the error was made with.
    pub fn description(&self) -> (m: &str)
        ensures
            m@ == self.message_view(),
    {
        self.message.as_str()
    }
}

/// Why pulling some data failed.
#[derive(Debug, Clone, Copy, PartialEq, Eq, Structural)]
pub enum PullErrorKind {
    Http,
    NoData,
    BadData,
    Database,
}

impl PullErrorKind {
    /// The number the kind is stored as (1 to 4, in the order of the variants).
    pub fn code(&self) -> (n: u8)
        ensures
            n == kind_code(*self),
    {
        match self {
            PullErrorKind::Http => 1,
            PullErrorKind::NoData => 2,
            PullErrorKind::BadData => 3,
            PullErrorKind::Database => 4,
        }
    }
}

pub open spec fn kind_code(kind: PullErrorKind) -> u8 {
    match kind {
        PullErrorKind::Http => 1,
        PullErrorKind::NoData => 2,
        PullErrorKind::BadData => 3,
        PullErrorKind::Database => 4,
    }
}

/// The abstract value of a [`PullError`]: the steps it went through, outermost
/// first, and the context it carries.
pub ghost struct PullErrorView {
    pub steps: Seq<Seq<char>>,
    pub kind: PullErrorKind,
    pub message: Option<Seq<char>>,
    pub http_url: Option<Seq<char>>,
    pub http_status: Option<u16>,
    pub http_body: Option<Seq<char>>,
    pub http_transport_error: Option<Seq<char>>,
    pub http_fragment: Option<Seq<char>>,
    pub skip: bool,
}

pub open spec fn opt_text(o: Option<String>) -> Option<Seq<char>> {
    match o {
        Some(s) => Some(s@),
        None => None,
    }
}

/// The error of a pulling step, with the chain of steps it passed through.
#[derive(Debug, Clone)]
pub struct PullError {
    steps: VecDeque<String>,
    kind: PullErrorKind,
    message: Option<String>,
    http_url: Option<String>,
    http_status: Option<u16>,
    http_body: Option<String>,
    http_transport_error: Option<String>,
    http_fragment: Option<String>,
    pub skip: bool,
}

impl View for PullError {
    type V = PullErrorView;

    closed spec fn view(&self) -> PullErrorView {
        PullErrorView {
            steps: self.steps@.map_values(|s: String| s@),
            kind: self.kind,
            message: opt_text(self.message),
            http_url: opt_text(self.http_url),
            http_status: self.http_status,
            http_body: opt_text(self.http_body),
            http_transport_error: opt_text(self.http_transport_error),
            http_fragment: opt_text(self.http_fragment),
            skip: self.skip,
        }
    }
}

/// The view of a fresh error of one step: no context, not to be skipped.
pub open spec fn fresh_error(step: Seq<char>, kind: PullErrorKind) -> PullErrorView {
    PullErrorView {
        steps: seq![step],
        kind,
        message: None,
        http_url: None,
        http_status: None,
        http_body: None,
        http_transport_error: None,
        http_fragment: None,
        skip: false,
    }
}

/// The view of a fresh error of one step that carries a message.
pub open spec fn error_with_message(step: Seq<char>, kind: PullErrorKind, message: Seq<char>) -> PullErrorView {
    PullErrorView { message: Some(message), ..fresh_error(step, kind) }
}

/// The view of an error after it went through one more step.
pub open spec fn stacked(e: PullErrorView, step: Seq<char>) -> PullErrorView {
    PullErrorView { steps: seq![step] + e.steps, ..e }
}

/// The view of an error after it went through the steps `outer`, in the order given.
pub open spec fn stacked_all(e: PullErrorView, outer: Seq<Seq<char>>) -> PullErrorView
    decreases outer.len(),
{
    if outer.len() == 0 {
        e
    } else {
        stacked_all(stacked(e, outer[0]), outer.drop_first())
    }
}

/// However many steps an error goes through, it lists them outermost first before the
/// steps it had, the step where it arose staying last, and nothing else of it changes.
pub proof fn law_stacked_steps(e: PullErrorView, outer: Seq<Seq<char>>)
    ensures
        stacked_all(e, outer).steps == outer.reverse() + e.steps,
        stacked_all(e, outer) == (PullErrorView { steps: outer.reverse() + e.steps, ..e }),
        e.steps.len() > 0 ==> stacked_all(e, outer).steps.last() == e.steps.last(),
    decreases outer.len(),
{
    if outer.len() > 0 {
        law_stacked_steps(stacked(e, outer[0]), outer.drop_first());
        assert(outer.drop_first().reverse() + (seq![outer[0]] + e.steps) =~= outer.reverse() + e.steps);
    }
}

impl PullError {
    /// An error of a failed HTTP exchange: `url` is the address asked for and
    /// `transport_error` what the transport reported.
    pub fn from_http_error(step: &str, url: &str, transport_error: &str) -> (e: Self)
        ensures
            e@ == (PullErrorView {
                http_url: Some(url@),
                http_transport_error: Some(transport_error@),
                ..fresh_error(step@, PullErrorKind::Http)
            }),
    {
        let mut steps = VecDeque::new();
        steps.push_back(step.to_owned());
        let e = PullError {
            steps,
            kind: PullErrorKind::Http,
            message: None,
            http_url: Some(url.to_owned()),
            http_status: None,
            http_body: None,
            http_transport_error: Some(transport_error.to_owned()),
            http_fragment: None,
            skip: false,
        };
        assert(e@.steps =~= seq![step@]);
        e
    }

    pub fn from_step(step: &str, kind: PullErrorKind) -> (e: Self)
        ensures
            e@ == fresh_error(step@, kind),
    {
        let mut steps = VecDeque::new();
        steps.push_back(step.to_owned());
        let e = PullError {
            steps,
            kind,
            message: None,
            http_url: None,
            http_status: None,
            http_body: None,
            http_transport_error: None,
            http_fragment: None,
            skip: false,
        };
        assert(e@.steps =~= seq![step@]);
        e
    }

    /// Records that the error went through one more step, outside the ones it
    /// went through already.
    pub fn stack_step(self, step: &str) -> (e: Self)
        ensures
            e@ == (PullErrorView { steps: seq![step@] + self@.steps, ..self@ }),
    {
        let mut s = self;
        s.steps.push_front(step.to_owned());
        assert(s@.steps =~= seq![step@] + self@.steps);
        s
    }

    pub fn set_http_context(self, url: &str, status: u16, body: &str) -> (e: Self)
        ensures
            e@ == (PullErrorView {
                http_url: Some(url@),
                http_status: Some(status),
                http_body: Some(body@),
                ..self@
            }),
    {
        let mut s = self;
        s.http_url = Some(url.to_owned());
        s.http_status = Some(status);
        s.http_body = Some(body.to_owned());
        s
    }

    pub fn set_http_fragment(self, fragment: &str) -> (e: Self)
        ensures
            e@ == (PullErrorView { http_fragment: Some(fragment@), ..self@ }),
    {
        let mut s = self;
        s.http_fragment = Some(fragment.to_owned());
        s
    }

    pub fn set_message(self, message: &str) -> (e: Self)
        ensures
            e@ == (PullErrorView { message: Some(message@), ..self@ }),
    {
        let mut s = self;
        s.message = Some(message.to_owned());
        s
    }

    pub fn set_http_url(self, url: &str) -> (e: Self)
        ensures
            e@ == (PullErrorView { http_url: Some(url@), ..self@ }),
    {
        let mut s = self;
        s.http_url = Some(url.to_owned());
        s
    }

    pub fn set_skip(self, skip: bool) -> (e: Self)
        ensures
            e@ == (PullErrorView { skip, ..self@ }),
    {
        let mut s = self;
        s.skip = skip;
        s
    }

    pub fn to_result<T>(self) -> (r: PullResult<T>)
        ensures
            r matches Err(e) && e@ == self@,
    {
        Err(self)
    }

    /// Whether the item the error is about is to be skipped rather than tried again.
    pub fn skipped(&self) -> (b: bool)
        ensures
            b == self@.skip,
    {
        self.skip
    }

    /// Why the error arose.
    pub fn kind(&self) -> (k: PullErrorKind)
        ensures
            k == self@.kind,
    {
        self.kind
    }

    /// The steps the error went through, outermost first.
    pub fn steps(&self) -> (v: Vec<String>)
        ensures
            v@.map_values(|s: String| s@) == self@.steps,
    {
        let mut v: Vec<String> = Vec::new();
        let mut i: usize = 0;
        while i < self.steps.len()
            invariant
                i <= self.steps@.len(),
                v@.map_values(|s: String| s@) == self@.steps.take(i as int),
            decreases self.steps@.len() - i,
        {
            let ghost before = v@;
            let step = self.steps[i].clone();
            assert(step@ == self@.steps[i as int]);
            v.push(step);
            assert(v@ =~= before.push(step));
            assert(v@.map_values(|s: String| s@) =~= before.map_values(|s: String| s@).push(step@));
            assert(self@.steps.take(i + 1) =~= self@.steps.take(i as int).push(self@.steps[i as int]));
            i = i + 1;
        }
        assert(self@.steps.take(i as int) =~= self@.steps);
        v
    }

    /// The message of the error, where it has one.
    pub fn message(&self) -> (m: Option<&str>)
        ensures
            match m {
                Some(t) => self@.message == Some(t@),
                None => self@.message is None,
            },
    {
        match &self.message {
            Some(v) => Some(v.as_str()),
            None => None,
        }
    }

    /// The address of the HTTP exchange the error came from, where it has one.
    pub fn http_url(&self) -> (u: Option<&str>)
        ensures
            match u {
                Some(t) => self@.http_url == Some(t@),
                None => self@.http_url is None,
            },
    {
        match &self.http_url {
            Some(v) => Some(v.as_str()),
            None => None,
        }
    }

    /// The status of the reply the error came from, where it has one.
    pub fn http_status(&self) -> (s: Option<u16>)
        ensures
            s == self@.http_status,
    {
        self.http_status
    }

    /// The body of the reply the error came from, where it has one.
    pub fn http_body(&self) -> (b: Option<&str>)
        ensures
            match b {
                Some(t) => self@.http_body == Some(t@),
                None => self@.http_body is None,
            },
    {
        match &self.http_body {
            Some(v) => Some(v.as_str()),
            None => None,
        }
    }

    /// What the transport reported of the failed exchange, where it reported anything.
    pub fn http_transport_error(&self) -> (t: Option<&str>)
        ensures
            match t {
                Some(x) => self@.http_transport_error == Some(x@),
                None => self@.http_transport_error is None,
            },
    {
        match &self.http_transport_error {
            Some(v) => Some(v.as_str()),
            None => None,
        }
    }

    /// The fragment of the page at fault, where the error has one.
    pub fn http_fragment(&self) -> (f: Option<&str>)
        ensures
            match f {
                Some(t) => self@.http_fragment == Some(t@),
                None => self@.http_fragment is None,
            },
    {
        match &self.http_fragment {
            Some(v) => Some(v.as_str()),
            None => None,
        }
    }

    /// The message of the error, or a fixed text where it has none.
    pub fn description(&self) -> (d: &str)
        ensures
            d@ == match self@.message {
                Some(m) => m,
                None => "no message from error"@,
            },
    {
        match &self.message {
            None => "no message from error",
            Some(v) => v.as_str(),
        }
    }
}

} // verus!
