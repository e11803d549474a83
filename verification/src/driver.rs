use vstd::prelude::*;
use crate::errors::NewsError;
use crate::feed::parse;
use crate::feed::parsed_channel;
use crate::project::News;
use crate::project::all_titled;
use crate::project::news_fields_of;
use crate::project::project;
use crate::project::projected;
use crate::registry::Registry;
use crate::registry::lookup;

verus! {

/// What the menu presenter came back with: a confirmed source name, or a
/// cancellation. A distinct variant, never a sentinel name, stands for
/// "nothing selected", so no real input can collide with it.
pub enum MenuOutcome {
    Selected(String),
    Cancelled,
}

/// What the driver does next, decided from the menu outcome alone.
pub enum DriverStep {
    /// Fetch the feed at this URL and run the pipeline on its bytes.
    Fetch(String),
    /// The user cancelled: exit cleanly, with no network request issued.
    CancelExit,
    /// The selected name has no configured URL.
    Fail(NewsError),
}

impl Registry {
    /// Decide the step after the menu closes. A cancellation never leads
    /// to a fetch: the driver exits cleanly and the fetcher is never
    /// invoked. A selected name resolves through the registry to its
    /// configured URL; a name the registry does not know fails the run
    /// with `RegistryLookupError`.
    pub fn decide_after_menu(&self, outcome: MenuOutcome) -> (r: DriverStep)
        ensures
            outcome is Cancelled <==> r is CancelExit,
            match outcome {
                MenuOutcome::Selected(name) => match lookup(self.entries_seq(), name@) {
                    Some(url) => r matches DriverStep::Fetch(u) && u@ == url,
                    None => r == DriverStep::Fail(NewsError::RegistryLookupError),
                },
                MenuOutcome::Cancelled => r == DriverStep::CancelExit,
            },
    {
        match outcome {
            MenuOutcome::Selected(name) => match self.resolve(name.as_str()) {
                Some(url) => DriverStep::Fetch(url),
                None => DriverStep::Fail(NewsError::RegistryLookupError),
            },
            MenuOutcome::Cancelled => DriverStep::CancelExit,
        }
    }
}

/// Run the fetched document through the pipeline: parse it as a feed,
/// then project each item to a display record, in document order.
/// Bytes that are not a well-formed feed fail with `ParseError` and
/// yield no records; a channel with an untitled item anywhere fails with
/// `MissingTitleError` and yields no records (the strict policy); a
/// channel of titled items yields exactly its projected records.
pub fn run_pipeline(doc: &[u8]) -> (r: Result<Vec<News>, NewsError>)
    ensures
        match parsed_channel(doc@) {
            None => r matches Err(e) && e == NewsError::ParseError,
            Some(items) => if all_titled(items) {
                r matches Ok(records) && news_fields_of(records@) == projected(items)
            } else {
                r matches Err(e) && e == NewsError::MissingTitleError
            },
        },
{
    match parse(doc) {
        Ok(items) => match project(&items) {
            Ok(records) => Ok(records),
            Err(e) => Err(e),
        },
        Err(e) => Err(e),
    }
}

/// The full unstyled output of a run: four lines per record (title,
/// description, link, blank separator), records in order.
pub fn render_output(records: &Vec<News>) -> (r: Vec<String>)
    ensures
        r@.len() == 4 * records@.len(),
        forall|k: int|
            0 <= k < records@.len() ==> r@[4 * k]@ == records@[k].title@ && r@[4 * k + 1]@
                == records@[k].description@ && r@[4 * k + 2]@ == records@[k].link@ && r@[4 * k
                + 3]@ == Seq::<char>::empty(),
{
    let mut out: Vec<String> = Vec::new();
    let n = records.len();
    let mut i: usize = 0;
    while i < n
        invariant
            n == records@.len(),
            i <= n,
            out@.len() == 4 * i,
            forall|k: int|
                0 <= k < i ==> out@[4 * k]@ == records@[k].title@ && out@[4 * k + 1]@
                    == records@[k].description@ && out@[4 * k + 2]@ == records@[k].link@ && out@[4
                    * k + 3]@ == Seq::<char>::empty(),
        decreases n - i,
    {
        let mut lines = crate::render::render_lines(&records[i]);
        out.push(lines.remove(0));
        out.push(lines.remove(0));
        out.push(lines.remove(0));
        out.push(lines.remove(0));
        i += 1;
    }
    out
}

} // verus!
