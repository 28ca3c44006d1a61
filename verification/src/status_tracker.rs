//! The log of a validation.

use vstd::prelude::*;

use crate::error::{agrees, Error, Failure};

verus! {

/// The status code of an invalid initialization segment.
pub const LIVEVIDEO_INIT_INVALID: &'static str = "livevideo.init.invalid";

/// The status code of an invalid segment manifest.
pub const LIVEVIDEO_MANIFEST_INVALID: &'static str = "livevideo.manifest.invalid";

/// The status code of an invalid media segment.
pub const LIVEVIDEO_SEGMENT_INVALID: &'static str = "livevideo.segment.invalid";

/// The status code of an invalid session key.
pub const LIVEVIDEO_SESSIONKEY_INVALID: &'static str = "livevideo.sessionkey.invalid";

/// What a failure does to the validation that it occurs in.
#[derive(Clone, Copy, Debug, PartialEq, Eq, Structural)]
pub enum ErrorBehavior {
    /// It is logged, and the validation goes on.
    ContinueWhenPossible,
    /// It is logged and ends the validation.
    StopOnFirstError,
}

/// A failure of a validation.
#[derive(Debug, PartialEq, Eq)]
pub struct LogItem {
    pub description: String,
    pub code: String,
}

/// What a [`LogItem`] says.
pub struct ItemView {
    pub description: Seq<char>,
    pub code: Seq<char>,
}

impl View for LogItem {
    type V = ItemView;

    open spec fn view(&self) -> ItemView {
        ItemView { description: self.description@, code: self.code@ }
    }
}

/// What a vector of failures stands for.
pub open spec fn item_views(items: Seq<LogItem>) -> Seq<ItemView> {
    Seq::new(items.len(), |i: int| items[i]@)
}

/// The failures of a validation, in the order in which they were found.
pub struct StatusTracker {
    pub behavior: ErrorBehavior,
    pub failures: Vec<LogItem>,
}

/// What a [`StatusTracker`] holds.
pub struct TrackerView {
    pub behavior: ErrorBehavior,
    pub failures: Seq<ItemView>,
}

impl View for StatusTracker {
    type V = TrackerView;

    open spec fn view(&self) -> TrackerView {
        TrackerView { behavior: self.behavior, failures: item_views(self.failures@) }
    }
}

/// The log behind a run of failures: all of them, or the first where it ends the validation.
pub open spec fn logged(tracker: TrackerView, failures: Seq<ItemView>) -> TrackerView {
    let kept = if tracker.behavior == ErrorBehavior::StopOnFirstError && failures.len() > 0 {
        seq![failures[0]]
    } else {
        failures
    };
    TrackerView { failures: tracker.failures + kept, ..tracker }
}

/// What a validation returns behind a run of failures: the code of the first, where it ends the
/// validation.
pub open spec fn verdict(tracker: TrackerView, failures: Seq<ItemView>) -> Result<(), Failure> {
    if tracker.behavior == ErrorBehavior::StopOnFirstError && failures.len() > 0 {
        Err(Failure::BadParam(failures[0].code))
    } else {
        Ok(())
    }
}

/// A failure with the given description and code.
pub open spec fn item(description: Seq<char>, code: Seq<char>) -> ItemView {
    ItemView { description, code }
}

/// A failure with the given description and code.
pub fn log_item(description: &str, code: &str) -> (r: LogItem)
    ensures
        r@ == item(description@, code@),
{
    LogItem { description: description.to_string(), code: code.to_string() }
}

/// Copies a failure.
pub fn copy_item(source: &LogItem) -> (r: LogItem)
    ensures
        r@ == source@,
{
    LogItem { description: source.description.clone(), code: source.code.clone() }
}

/// Appends a failure to a list.
pub fn push_item(items: &mut Vec<LogItem>, description: &str, code: &str)
    ensures
        item_views(final(items)@) == item_views(old(items)@) + seq![item(description@, code@)],
{
    items.push(log_item(description, code));
    assert(item_views(items@) =~= item_views(old(items)@) + seq![item(description@, code@)]);
}

/// Appends copies of failures to a list.
pub fn push_items(items: &mut Vec<LogItem>, more: &Vec<LogItem>)
    ensures
        item_views(final(items)@) == item_views(old(items)@) + item_views(more@),
{
    let ghost all = item_views(more@);
    let ghost before = item_views(items@);
    let mut i: usize = 0;
    assert(before + all.take(0) =~= before);
    while i < more.len()
        invariant
            i <= more@.len(),
            all == item_views(more@),
            item_views(items@) == before + all.take(i as int),
        decreases more@.len() - i,
    {
        let ghost sofar = item_views(items@);
        items.push(copy_item(&more[i]));
        proof {
            assert(item_views(items@) =~= sofar.push(all[i as int]));
            assert(all.take(i + 1) =~= all.take(i as int).push(all[i as int]));
            assert((before + all.take(i as int)).push(all[i as int]) =~= before + all.take(i + 1));
        }
        i = i + 1;
    }
    assert(all.take(all.len() as int) =~= all);
}

impl StatusTracker {
    /// An empty log.
    pub fn with_error_behavior(behavior: ErrorBehavior) -> (r: Self)
        ensures
            r@ == (TrackerView { behavior, failures: seq![] }),
    {
        let r = StatusTracker { behavior, failures: Vec::new() };
        assert(item_views(r.failures@) =~= seq![]);
        r
    }

    /// The number of failures.
    pub fn failure_count(&self) -> (r: usize)
        ensures
            r == self@.failures.len(),
    {
        self.failures.len()
    }

    /// Logs a run of failures.
    pub fn record(&mut self, failures: &Vec<LogItem>) -> (r: Result<(), Error>)
        ensures
            final(self)@ == logged(old(self)@, item_views(failures@)),
            agrees(r, verdict(old(self)@, item_views(failures@))),
    {
        assert(item_views(failures@).len() == failures@.len());
        if self.behavior == ErrorBehavior::StopOnFirstError && failures.len() > 0 {
            let first = &failures[0];
            assert(item_views(failures@)[0] == first@);
            let ghost before = item_views(self.failures@);
            self.failures.push(copy_item(first));
            assert(item_views(self.failures@) =~= before + seq![first@]);
            return Err(Error::BadParam(first.code.clone()));
        }
        push_items(&mut self.failures, failures);
        Ok(())
    }
}

impl Default for StatusTracker {
    /// An empty log that lets a validation go on.
    fn default() -> (r: Self)
        ensures
            r@ == (TrackerView { behavior: ErrorBehavior::ContinueWhenPossible, failures: seq![] }),
    {
        Self::with_error_behavior(ErrorBehavior::ContinueWhenPossible)
    }
}

/// Logs one failure.
pub fn fail_validation(description: &str, status_code: &str, tracker: &mut StatusTracker) -> (r:
    Result<(), Error>)
    ensures
        final(tracker)@ == logged(old(tracker)@, seq![item(description@, status_code@)]),
        agrees(r, verdict(old(tracker)@, seq![item(description@, status_code@)])),
{
    let mut items: Vec<LogItem> = Vec::new();
    assert(item_views(items@) =~= seq![]);
    push_item(&mut items, description, status_code);
    assert(item_views(items@) =~= seq![item(description@, status_code@)]);
    tracker.record(&items)
}

} // verus!
