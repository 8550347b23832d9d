//! What a service reports about its health.
use vstd::prelude::*;

verus! {

/// One line of a health report: how one component fares.
#[derive(Debug)]
pub struct StatusLine {
    pub status: String,
    pub component: String,
    pub value: String,
    pub _type: String,
}

/// The mathematical value of a [`StatusLine`].
pub struct StatusLineView {
    pub status: Seq<char>,
    pub component: Seq<char>,
    pub value: Seq<char>,
    pub _type: Seq<char>,
}

impl View for StatusLine {
    type V = StatusLineView;

    open spec fn view(&self) -> StatusLineView {
        StatusLineView {
            status: self.status@,
            component: self.component@,
            value: self.value@,
            _type: self._type@,
        }
    }
}

/// The views of a list of lines, in order.
pub open spec fn line_views(lines: Seq<StatusLine>) -> Seq<StatusLineView> {
    lines.map_values(|l: StatusLine| l@)
}

/// A health report: when it was made, in seconds since the epoch, and its
/// lines.
#[derive(Debug)]
pub struct MonitoringStatus {
    pub now: Option<i64>,
    pub lines: Option<Vec<StatusLine>>,
}

/// The mathematical value of a [`MonitoringStatus`]; a report without a list
/// of lines counts as one with an empty list.
pub struct MonitoringStatusView {
    pub now: Option<i64>,
    pub lines: Seq<StatusLineView>,
}

impl View for MonitoringStatus {
    type V = MonitoringStatusView;

    open spec fn view(&self) -> MonitoringStatusView {
        MonitoringStatusView {
            now: self.now,
            lines: match self.lines {
                Some(l) => line_views(l@),
                None => Seq::empty(),
            },
        }
    }
}

impl Default for MonitoringStatus {
    fn default() -> (r: MonitoringStatus)
        ensures
            r.now is None,
            r.lines is None,
    {
        MonitoringStatus { now: None, lines: None }
    }
}

} // verus!
