//! The orchestrator's decisions: one task per extracted URL, which HTTP
//! statuses count as success, and what the collection phase does with each
//! task's outcome.
use vstd::prelude::*;
use crate::chars::string_of;
use crate::extract::{extract_urls, urls_in};

verus! {

/// One unit of work: a URL to fetch, and the referer to send with it.
pub struct DownloadTask {
    pub url: String,
    pub referer: Option<String>,
}

/// One task per URL of `text`, in order of appearance, each carrying `referer`.
pub fn plan_tasks(text: &str, referer: &Option<String>) -> (r: Vec<DownloadTask>)
    ensures
        r@.len() == urls_in(text@).len(),
        forall|k: int|
            0 <= k < r@.len() ==> (#[trigger] r@[k]).url@ == urls_in(text@)[k]
                && r@[k].referer.deep_view() == referer.deep_view(),
{
    let urls = extract_urls(text);
    let mut out: Vec<DownloadTask> = Vec::new();
    let mut k: usize = 0;
    while k < urls.len()
        invariant
            urls@.len() == urls_in(text@).len(),
            forall|m: int| 0 <= m < urls@.len() ==> (#[trigger] urls@[m])@ == urls_in(text@)[m],
            k <= urls@.len(),
            out@.len() == k,
            forall|m: int|
                0 <= m < k ==> (#[trigger] out@[m]).url@ == urls_in(text@)[m]
                    && out@[m].referer.deep_view() == referer.deep_view(),
        decreases urls@.len() - k,
    {
        let referer_copy = match referer {
            Some(r) => Some(r.clone()),
            None => None,
        };
        out.push(DownloadTask { url: urls[k].clone(), referer: referer_copy });
        k = k + 1;
    }
    out
}

/// A response status counts as success only in the 2xx range.
pub fn is_success_status(code: u16) -> (r: bool)
    ensures
        r == (200 <= code && code < 300),
{
    200 <= code && code < 300
}

pub open spec fn digit_char(d: nat) -> char {
    if d == 0 {
        '0'
    } else if d == 1 {
        '1'
    } else if d == 2 {
        '2'
    } else if d == 3 {
        '3'
    } else if d == 4 {
        '4'
    } else if d == 5 {
        '5'
    } else if d == 6 {
        '6'
    } else if d == 7 {
        '7'
    } else if d == 8 {
        '8'
    } else {
        '9'
    }
}

/// The decimal digits of `n`, without leading zeros.
pub open spec fn decimal(n: nat) -> Seq<char>
    decreases n,
{
    if n < 10 {
        seq![digit_char(n)]
    } else {
        decimal(n / 10).push(digit_char(n % 10))
    }
}

/// The name made up for the task at `index` when no hint is usable.
pub open spec fn synthesized_name(index: nat) -> Seq<char> {
    seq!['f', 'i', 'l', 'e', '_'] + decimal(index)
}

/// The name under which the task at `index` writes its bytes.
pub open spec fn output_name(hint: Option<Seq<char>>, index: nat) -> Seq<char> {
    match hint {
        Some(h) => if h.len() > 0 { h } else { synthesized_name(index) },
        None => synthesized_name(index),
    }
}

fn digit(d: usize) -> (c: char)
    requires
        d < 10,
    ensures
        c == digit_char(d as nat),
{
    if d == 0 {
        '0'
    } else if d == 1 {
        '1'
    } else if d == 2 {
        '2'
    } else if d == 3 {
        '3'
    } else if d == 4 {
        '4'
    } else if d == 5 {
        '5'
    } else if d == 6 {
        '6'
    } else if d == 7 {
        '7'
    } else if d == 8 {
        '8'
    } else {
        '9'
    }
}

fn push_decimal(n: usize, out: &mut Vec<char>)
    ensures
        final(out)@ == old(out)@ + decimal(n as nat),
    decreases n,
{
    if n >= 10 {
        push_decimal(n / 10, out);
    }
    out.push(digit(n % 10));
    proof {
        assert(decimal(n as nat) == if n < 10 {
            seq![digit_char(n as nat)]
        } else {
            decimal((n / 10) as nat).push(digit_char((n % 10) as nat))
        });
        assert(final(out)@ =~= old(out)@ + decimal(n as nat));
    }
}

/// The file name for the task at `index`: its hint when present and
/// non-empty, else `file_<index>`.
pub fn file_name_for(hint: &Option<String>, index: usize) -> (r: String)
    ensures
        r@ == output_name(hint.deep_view(), index as nat),
{
    match hint {
        Some(h) => {
            if h.as_str().unicode_len() > 0 {
                return h.clone();
            }
        },
        None => {},
    }
    let mut cs: Vec<char> = vec!['f', 'i', 'l', 'e', '_'];
    push_decimal(index, &mut cs);
    proof {
        assert(cs@ =~= synthesized_name(index as nat));
    }
    string_of(cs.as_slice())
}

/// What a finished task handed back to the collection phase.
pub enum TaskOutcome {
    /// The fetch succeeded; the bytes stay with the caller.
    Fetched { hint: Option<String> },
    /// The fetch failed after its retries, or the task itself broke down.
    Failed,
}

/// What the collection phase does for one task.
pub enum Disposal {
    /// Write the task's bytes to the output directory under this name,
    /// replacing a file of that name.
    Write { name: String },
    /// Log a warning with the task's error and go on.
    Warn,
}

/// Whether `d` is what the collection phase owes to `o`, the outcome of the
/// task at `index`.
pub open spec fn disposal_of(o: TaskOutcome, index: nat, d: Disposal) -> bool {
    match (o, d) {
        (TaskOutcome::Fetched { hint }, Disposal::Write { name }) => name@ == output_name(
            hint.deep_view(),
            index,
        ),
        (TaskOutcome::Failed, Disposal::Warn) => true,
        _ => false,
    }
}

/// One disposal per outcome, in task order: a write for each fetched task, a
/// warning for each failed one. No failure stops the others.
pub fn plan_collection(outcomes: &Vec<TaskOutcome>) -> (r: Vec<Disposal>)
    ensures
        r@.len() == outcomes@.len(),
        forall|i: int| 0 <= i < r@.len() ==> disposal_of(outcomes@[i], i as nat, #[trigger] r@[i]),
{
    let mut out: Vec<Disposal> = Vec::new();
    let mut i: usize = 0;
    while i < outcomes.len()
        invariant
            i <= outcomes@.len(),
            out@.len() == i,
            forall|m: int| 0 <= m < i ==> disposal_of(outcomes@[m], m as nat, #[trigger] out@[m]),
        decreases outcomes@.len() - i,
    {
        let d = match &outcomes[i] {
            TaskOutcome::Fetched { hint } => Disposal::Write { name: file_name_for(hint, i) },
            TaskOutcome::Failed => Disposal::Warn,
        };
        out.push(d);
        i = i + 1;
    }
    out
}

} // verus!
