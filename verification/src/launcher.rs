//! Service directory scan: decide, for each directory entry, whether it
//! becomes a supervised service.
//!
//! An entry whose file name is not valid UTF-8 is reported and skipped; the
//! init binary itself is skipped silently; every other entry is launched.
use vstd::prelude::*;

use crate::messages::Color;
use crate::messages::ConsoleLine;
use crate::messages::invalid_unicode_text;
use crate::messages::line_invalid_unicode;

verus! {

/// What the scan does with one directory entry. The entry's file name is
/// `None` when it is not valid UTF-8.
#[derive(Clone, Copy, PartialEq, Eq, Structural, Debug)]
pub enum ScanDecision {
    /// Report `invalid unicode in file name` and skip the entry.
    InvalidName,
    /// The init binary itself: skip silently.
    SkipInit,
    /// Start a supervisor for this entry.
    Launch,
}

/// The decision for one entry name.
pub open spec fn decision_of(name: Option<Seq<char>>) -> ScanDecision {
    match name {
        Option::None => ScanDecision::InvalidName,
        Option::Some(n) => if n == "init"@ {
            ScanDecision::SkipInit
        } else {
            ScanDecision::Launch
        },
    }
}

/// An entry that gets a supervisor: a valid name other than `init`.
pub open spec fn entry_qualifies(name: Option<Seq<char>>) -> bool {
    decision_of(name) == ScanDecision::Launch
}

/// The names launched from a scan, in directory order.
pub open spec fn launch_list(names: Seq<Option<Seq<char>>>) -> Seq<Seq<char>>
    decreases names.len(),
{
    if names.len() == 0 {
        Seq::empty()
    } else {
        launch_list(names.drop_last()) + if entry_qualifies(names.last()) {
            seq![names.last()->0]
        } else {
            Seq::empty()
        }
    }
}

/// How many entries of a scan have a name that is not valid UTF-8.
pub open spec fn invalid_count(names: Seq<Option<Seq<char>>>) -> int
    decreases names.len(),
{
    if names.len() == 0 {
        0
    } else {
        invalid_count(names.drop_last()) + if names.last() is None {
            1int
        } else {
            0int
        }
    }
}

/// Decide what to do with one directory entry.
pub fn classify_entry(name: &Option<String>) -> (d: ScanDecision)
    ensures
        d == decision_of(name.deep_view()),
{
    match name {
        Option::None => ScanDecision::InvalidName,
        Option::Some(n) => {
            let init_name = String::from_str("init");
            if *n == init_name {
                ScanDecision::SkipInit
            } else {
                ScanDecision::Launch
            }
        },
    }
}

/// The outcome of one directory scan: the services to supervise, in
/// directory order, and one console notice per rejected entry name.
pub struct LaunchPlan {
    pub services: Vec<String>,
    pub notices: Vec<ConsoleLine>,
}

/// Turn the scanned entry names into a launch plan: every valid name other
/// than `init` is launched exactly once, in directory order, and every
/// invalid name yields one red `invalid unicode` notice.
pub fn plan_launch(names: Vec<Option<String>>) -> (plan: LaunchPlan)
    ensures
        plan.services.deep_view() == launch_list(names.deep_view()),
        plan.notices@.len() == invalid_count(names.deep_view()),
        forall|i: int|
            0 <= i < plan.notices@.len() ==> (#[trigger] plan.notices@[i])@ == (
            Color::Red,
            invalid_unicode_text(),
            ),
{
    let ghost all: Seq<Option<Seq<char>>> = names.deep_view();
    let mut services: Vec<String> = Vec::new();
    let mut notices: Vec<ConsoleLine> = Vec::new();
    let n = names.len();
    let mut idx: usize = 0;
    while idx < n
        invariant
            n == names@.len(),
            all == names.deep_view(),
            idx <= n,
            services.deep_view() == launch_list(all.take(idx as int)),
            notices@.len() == invalid_count(all.take(idx as int)),
            forall|i: int|
                0 <= i < notices@.len() ==> (#[trigger] notices@[i])@ == (
                Color::Red,
                invalid_unicode_text(),
                ),
        decreases n - idx,
    {
        proof {
            assert(all.take(idx + 1).drop_last() =~= all.take(idx as int));
            assert(all.take(idx + 1).last() == all[idx as int]);
        }
        let entry = &names[idx];
        let d = classify_entry(entry);
        match d {
            ScanDecision::InvalidName => {
                notices.push(line_invalid_unicode());
                proof {
                    assert(launch_list(all.take(idx + 1)) =~= launch_list(all.take(idx as int)));
                }
            },
            ScanDecision::SkipInit => {
                proof {
                    assert(launch_list(all.take(idx + 1)) =~= launch_list(all.take(idx as int)));
                    assert(invalid_count(all.take(idx + 1)) == invalid_count(
                        all.take(idx as int),
                    ));
                }
            },
            ScanDecision::Launch => {
                let name = match entry {
                    Option::Some(s) => s.clone(),
                    Option::None => String::new(),
                };
                services.push(name);
                proof {
                    assert(services.deep_view() =~= launch_list(all.take(idx + 1)));
                    assert(invalid_count(all.take(idx + 1)) == invalid_count(
                        all.take(idx as int),
                    ));
                }
            },
        }
        idx = idx + 1;
    }
    proof {
        assert(all.take(n as int) =~= all);
    }
    LaunchPlan { services, notices }
}

/// Law: the launch list is exactly the qualifying entries, each taken once
/// and in order — for every file under the service directory other than
/// `init` whose name is valid UTF-8, exactly one supervisor is created.
pub proof fn lemma_one_supervisor_per_service(names: Seq<Option<Seq<char>>>)
    ensures
        launch_list(names) == names.filter(|n: Option<Seq<char>>| entry_qualifies(n)).map_values(
            |n: Option<Seq<char>>| n->0,
        ),
    decreases names.len(),
{
    let pred = |n: Option<Seq<char>>| entry_qualifies(n);
    let unwrap_fn = |n: Option<Seq<char>>| n->0;
    if names.len() == 0 {
        assert(names.filter(pred) =~= Seq::<Option<Seq<char>>>::empty());
        assert(launch_list(names) =~= names.filter(pred).map_values(unwrap_fn));
    } else {
        lemma_one_supervisor_per_service(names.drop_last());
        assert(names =~= names.drop_last() + seq![names.last()]);
        Seq::filter_distributes_over_add(names.drop_last(), seq![names.last()], pred);
        reveal(Seq::filter);
        if entry_qualifies(names.last()) {
            assert(seq![names.last()].filter(pred) =~= seq![names.last()]);
        } else {
            assert(seq![names.last()].filter(pred) =~= Seq::<Option<Seq<char>>>::empty());
        }
        assert(launch_list(names) =~= names.filter(pred).map_values(unwrap_fn));
    }
}

} // verus!
