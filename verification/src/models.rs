//! Status tokens, run records and broker events.
use crate::text::str_eq;
use vstd::prelude::*;

verus! {

/// The closed set of statuses a workflow run can report.
#[derive(Debug, PartialEq, Eq, Clone, Copy, Structural)]
pub enum StatusEnum {
    Pending,
    Waiting,
    Checking,
    Building,
    Success,
    Fail,
    Disabled,
    NeverBuilt,
    Unknown,
    Skipped,
    Stopped,
}

impl StatusEnum {
    /// The textual token of a status.
    pub open spec fn name(self) -> Seq<char> {
        match self {
            StatusEnum::Pending => "Pending"@,
            StatusEnum::Waiting => "Waiting"@,
            StatusEnum::Checking => "Checking"@,
            StatusEnum::Building => "Building"@,
            StatusEnum::Success => "Success"@,
            StatusEnum::Fail => "Fail"@,
            StatusEnum::Disabled => "Disabled"@,
            StatusEnum::NeverBuilt => "NeverBuilt"@,
            StatusEnum::Unknown => "Unknown"@,
            StatusEnum::Skipped => "Skipped"@,
            StatusEnum::Stopped => "Stopped"@,
        }
    }

    /// The status a text decodes to: the one whose token it is, and `Unknown`
    /// for every other text.
    pub open spec fn parse(text: Seq<char>) -> StatusEnum {
        if text == "Pending"@ {
            StatusEnum::Pending
        } else if text == "Waiting"@ {
            StatusEnum::Waiting
        } else if text == "Checking"@ {
            StatusEnum::Checking
        } else if text == "Building"@ {
            StatusEnum::Building
        } else if text == "Success"@ {
            StatusEnum::Success
        } else if text == "Fail"@ {
            StatusEnum::Fail
        } else if text == "Stopped"@ {
            StatusEnum::Stopped
        } else if text == "Disabled"@ {
            StatusEnum::Disabled
        } else if text == "NeverBuilt"@ {
            StatusEnum::NeverBuilt
        } else if text == "Skipped"@ {
            StatusEnum::Skipped
        } else {
            StatusEnum::Unknown
        }
    }

    /// The token of this status.
    pub fn as_str(&self) -> (r: &'static str)
        ensures
            r@ == self.name(),
    {
        match self {
            StatusEnum::Pending => "Pending",
            StatusEnum::Waiting => "Waiting",
            StatusEnum::Checking => "Checking",
            StatusEnum::Building => "Building",
            StatusEnum::Success => "Success",
            StatusEnum::Fail => "Fail",
            StatusEnum::Disabled => "Disabled",
            StatusEnum::NeverBuilt => "NeverBuilt",
            StatusEnum::Unknown => "Unknown",
            StatusEnum::Skipped => "Skipped",
            StatusEnum::Stopped => "Stopped",
        }
    }

    /// Decodes a token. Decoding never fails: a text that is no token gives
    /// `Unknown`.
    pub fn from_text(elt: &str) -> (r: StatusEnum)
        ensures
            r == StatusEnum::parse(elt@),
    {
        if str_eq(elt, "Pending") {
            StatusEnum::Pending
        } else if str_eq(elt, "Waiting") {
            StatusEnum::Waiting
        } else if str_eq(elt, "Checking") {
            StatusEnum::Checking
        } else if str_eq(elt, "Building") {
            StatusEnum::Building
        } else if str_eq(elt, "Success") {
            StatusEnum::Success
        } else if str_eq(elt, "Fail") {
            StatusEnum::Fail
        } else if str_eq(elt, "Stopped") {
            StatusEnum::Stopped
        } else if str_eq(elt, "Disabled") {
            StatusEnum::Disabled
        } else if str_eq(elt, "NeverBuilt") {
            StatusEnum::NeverBuilt
        } else if str_eq(elt, "Skipped") {
            StatusEnum::Skipped
        } else {
            StatusEnum::Unknown
        }
    }
}

impl Default for StatusEnum {
    fn default() -> (r: StatusEnum)
        ensures
            r == StatusEnum::NeverBuilt,
    {
        StatusEnum::NeverBuilt
    }
}

impl<'a> From<&'a str> for StatusEnum {
    fn from(elt: &'a str) -> (r: StatusEnum) {
        StatusEnum::from_text(elt)
    }
}

impl<'a> vstd::std_specs::convert::FromSpecImpl<&'a str> for StatusEnum {
    open spec fn obeys_from_spec() -> bool {
        true
    }

    open spec fn from_spec(elt: &'a str) -> StatusEnum {
        StatusEnum::parse(elt@)
    }
}

impl From<String> for StatusEnum {
    fn from(elt: String) -> (r: StatusEnum) {
        StatusEnum::from_text(elt.as_str())
    }
}

impl vstd::std_specs::convert::FromSpecImpl<String> for StatusEnum {
    open spec fn obeys_from_spec() -> bool {
        true
    }

    open spec fn from_spec(elt: String) -> StatusEnum {
        StatusEnum::parse(elt@)
    }
}

impl<'a> From<&'a String> for StatusEnum {
    fn from(elt: &'a String) -> (r: StatusEnum) {
        StatusEnum::from_text(elt.as_str())
    }
}

impl<'a> vstd::std_specs::convert::FromSpecImpl<&'a String> for StatusEnum {
    open spec fn obeys_from_spec() -> bool {
        true
    }

    open spec fn from_spec(elt: &'a String) -> StatusEnum {
        StatusEnum::parse(elt@)
    }
}

impl From<StatusEnum> for String {
    fn from(status: StatusEnum) -> (r: String) {
        status.as_str().to_owned()
    }
}

impl vstd::std_specs::convert::FromSpecImpl<StatusEnum> for String {
    open spec fn obeys_from_spec() -> bool {
        false
    }

    open spec fn from_spec(status: StatusEnum) -> String {
        arbitrary()
    }
}

/// The eleven tokens differ pairwise in their first two characters.
pub proof fn lemma_names_distinct()
    ensures
        forall|a: StatusEnum, b: StatusEnum| a != b ==> #[trigger] a.name() != #[trigger] b.name(),
{
    reveal_strlit("Pending");
    reveal_strlit("Waiting");
    reveal_strlit("Checking");
    reveal_strlit("Building");
    reveal_strlit("Success");
    reveal_strlit("Fail");
    reveal_strlit("Stopped");
    reveal_strlit("Disabled");
    reveal_strlit("NeverBuilt");
    reveal_strlit("Unknown");
    reveal_strlit("Skipped");
    assert forall|a: StatusEnum, b: StatusEnum| a != b implies #[trigger] a.name()
        != #[trigger] b.name() by {
        assert(a.name().len() >= 2 && b.name().len() >= 2);
        assert(a.name()[0] != b.name()[0] || a.name()[1] != b.name()[1]);
    }
}

/// Decoding the token of a status gives that status back.
pub proof fn lemma_parse_name(s: StatusEnum)
    ensures
        StatusEnum::parse(s.name()) == s,
{
    lemma_names_distinct();
    assert(StatusEnum::Pending.name() == "Pending"@);
    assert(StatusEnum::Waiting.name() == "Waiting"@);
    assert(StatusEnum::Checking.name() == "Checking"@);
    assert(StatusEnum::Building.name() == "Building"@);
    assert(StatusEnum::Success.name() == "Success"@);
    assert(StatusEnum::Fail.name() == "Fail"@);
    assert(StatusEnum::Stopped.name() == "Stopped"@);
    assert(StatusEnum::Disabled.name() == "Disabled"@);
    assert(StatusEnum::NeverBuilt.name() == "NeverBuilt"@);
    assert(StatusEnum::Unknown.name() == "Unknown"@);
    assert(StatusEnum::Skipped.name() == "Skipped"@);
}

/// Every text decodes to some status, and a text that is none of the eleven
/// tokens decodes to `Unknown`.
pub proof fn lemma_parse_total(text: Seq<char>)
    ensures
        (forall|s: StatusEnum| text != #[trigger] s.name()) ==> StatusEnum::parse(text)
            == StatusEnum::Unknown,
        StatusEnum::parse(text) != StatusEnum::Unknown ==> StatusEnum::parse(text).name() == text,
{
    if forall|s: StatusEnum| text != #[trigger] s.name() {
        assert(text != StatusEnum::Pending.name());
        assert(text != StatusEnum::Waiting.name());
        assert(text != StatusEnum::Checking.name());
        assert(text != StatusEnum::Building.name());
        assert(text != StatusEnum::Success.name());
        assert(text != StatusEnum::Fail.name());
        assert(text != StatusEnum::Stopped.name());
        assert(text != StatusEnum::Disabled.name());
        assert(text != StatusEnum::NeverBuilt.name());
        assert(text != StatusEnum::Skipped.name());
    }
}

/// One observed status of one run attempt.
#[derive(Debug)]
pub struct Run {
    /// Surrogate key, assigned by the store.
    pub id: i64,
    pub run_id: i64,
    /// The run number within its workflow.
    pub num: i64,
    pub project_key: String,
    pub workflow_name: String,
    /// `None` means that the run has no branch dimension.
    pub branch: Option<String>,
    pub status: String,
    /// Timestamp assigned by the store.
    pub updated: i64,
}

/// The mathematical value of a [`Run`].
pub struct RunView {
    pub id: i64,
    pub run_id: i64,
    pub num: i64,
    pub project_key: Seq<char>,
    pub workflow_name: Seq<char>,
    pub branch: Option<Seq<char>>,
    pub status: Seq<char>,
    pub updated: i64,
}

/// The characters of an optional string.
pub open spec fn opt_text(s: Option<String>) -> Option<Seq<char>> {
    match s {
        Some(t) => Some(t@),
        None => None,
    }
}

/// A copy of an optional string.
pub fn clone_opt(s: &Option<String>) -> (r: Option<String>)
    ensures
        r == *s,
{
    match s {
        Some(t) => Some(t.clone()),
        None => None,
    }
}

impl View for Run {
    type V = RunView;

    open spec fn view(&self) -> RunView {
        RunView {
            id: self.id,
            run_id: self.run_id,
            num: self.num,
            project_key: self.project_key@,
            workflow_name: self.workflow_name@,
            branch: opt_text(self.branch),
            status: self.status@,
            updated: self.updated,
        }
    }
}

impl Clone for Run {
    fn clone(&self) -> (r: Run)
        ensures
            r == *self,
    {
        Run {
            id: self.id,
            run_id: self.run_id,
            num: self.num,
            project_key: self.project_key.clone(),
            workflow_name: self.workflow_name.clone(),
            branch: clone_opt(&self.branch),
            status: self.status.clone(),
            updated: self.updated,
        }
    }
}

impl Default for Run {
    fn default() -> (r: Run)
        ensures
            r@ == (RunView {
                id: 0,
                run_id: 0,
                num: 0,
                project_key: Seq::empty(),
                workflow_name: Seq::empty(),
                branch: None,
                status: Seq::empty(),
                updated: 0,
            }),
    {
        Run {
            id: 0,
            run_id: 0,
            num: 0,
            project_key: String::new(),
            workflow_name: String::new(),
            branch: None,
            status: String::new(),
            updated: 0,
        }
    }
}

/// A label attached to an event.
#[derive(Debug)]
pub struct Tag {
    pub tag: String,
    pub value: String,
}

/// The mathematical value of a [`Tag`].
pub struct TagView {
    pub tag: Seq<char>,
    pub value: Seq<char>,
}

impl View for Tag {
    type V = TagView;

    open spec fn view(&self) -> TagView {
        TagView { tag: self.tag@, value: self.value@ }
    }
}

impl Default for Tag {
    fn default() -> (r: Tag)
        ensures
            r@ == (TagView { tag: Seq::empty(), value: Seq::empty() }),
    {
        Tag { tag: String::new(), value: String::new() }
    }
}

/// The views of a list of tags, in order.
pub open spec fn tag_views(tags: Seq<Tag>) -> Seq<TagView> {
    tags.map_values(|t: Tag| t@)
}

/// The views of an optional list of tags; no list counts as an empty one.
pub open spec fn opt_tag_views(tags: Option<Vec<Tag>>) -> Seq<TagView> {
    match tags {
        Some(v) => tag_views(v@),
        None => Seq::empty(),
    }
}

/// A message of the broker that reports a step in the life of a workflow run.
#[derive(Debug)]
pub struct Event {
    pub timestamp: String,
    pub hostname: String,
    pub cdsname: String,
    pub type_event: String,
    pub attempt: i64,
    pub project_key: String,
    pub workflow_name: String,
    pub workflow_run_num: i64,
    pub status: StatusEnum,
    pub tag: Option<Vec<Tag>>,
}

/// The mathematical value of an [`Event`].
pub struct EventView {
    pub timestamp: Seq<char>,
    pub hostname: Seq<char>,
    pub cdsname: Seq<char>,
    pub type_event: Seq<char>,
    pub attempt: i64,
    pub project_key: Seq<char>,
    pub workflow_name: Seq<char>,
    pub workflow_run_num: i64,
    pub status: StatusEnum,
    pub tags: Seq<TagView>,
}

impl View for Event {
    type V = EventView;

    open spec fn view(&self) -> EventView {
        EventView {
            timestamp: self.timestamp@,
            hostname: self.hostname@,
            cdsname: self.cdsname@,
            type_event: self.type_event@,
            attempt: self.attempt,
            project_key: self.project_key@,
            workflow_name: self.workflow_name@,
            workflow_run_num: self.workflow_run_num,
            status: self.status,
            tags: opt_tag_views(self.tag),
        }
    }
}

impl Default for Event {
    fn default() -> (r: Event)
        ensures
            r@ == (EventView {
                timestamp: Seq::empty(),
                hostname: Seq::empty(),
                cdsname: Seq::empty(),
                type_event: Seq::empty(),
                attempt: 0,
                project_key: Seq::empty(),
                workflow_name: Seq::empty(),
                workflow_run_num: 0,
                status: StatusEnum::NeverBuilt,
                tags: Seq::empty(),
            }),
    {
        Event {
            timestamp: String::new(),
            hostname: String::new(),
            cdsname: String::new(),
            type_event: String::new(),
            attempt: 0,
            project_key: String::new(),
            workflow_name: String::new(),
            workflow_run_num: 0,
            status: StatusEnum::NeverBuilt,
            tag: None,
        }
    }
}

} // verus!
