use vstd::prelude::*;
use std::time::Instant;
use crate::strutil::{is_dec_digit, u64_to_string};
use crate::style::{paint_blue, paint_green, paint_red, paint_yellow};
use crate::test_errors::{ExecutionError, ExecutionMetrics, TestError};
use crate::watchdog::instant_now;
use crate::Millis;

verus! {

/// The color a count is shown in.
pub enum CountColor {
    Red,
    Green,
    Blue,
    Yellow,
}

/// One entry of the summary line: a count with its wording and color.
pub struct CountPart<'a> {
    pub display_empty: bool,
    pub count: usize,
    pub singular: &'a str,
    pub plural: &'a str,
    pub color: CountColor,
}

impl<'a> CountPart<'a> {
    /// A red count shown only when non-zero, with one wording for any
    /// number.
    pub fn new(count: usize, text: &'a str) -> (r: CountPart<'a>)
        ensures
            r.count == count,
            r.singular@ == text@,
            r.plural@ == text@,
            !r.display_empty,
            r.color is Red,
    {
        CountPart { display_empty: false, count, singular: text, plural: text, color: CountColor::Red }
    }

    /// The wording used for counts other than one.
    pub fn with_plural(self, text: &'a str) -> (r: CountPart<'a>)
        ensures
            r == (CountPart { plural: text, ..self }),
    {
        CountPart { plural: text, ..self }
    }

    /// Show the part even when the count is zero.
    pub fn display_empty(self) -> (r: CountPart<'a>)
        ensures
            r == (CountPart { display_empty: true, ..self }),
    {
        CountPart { display_empty: true, ..self }
    }

    /// The color the part is shown in.
    pub fn with_color(self, color: CountColor) -> (r: CountPart<'a>)
        ensures
            r == (CountPart { color: color, ..self }),
    {
        CountPart { color, ..self }
    }

    /// The wording that fits the count.
    pub fn get_text(&self) -> (r: &'a str)
        ensures
            r@ == if self.count == 1 {
                self.singular@
            } else {
                self.plural@
            },
    {
        if self.count == 1 {
            self.singular
        } else {
            self.plural
        }
    }
}

/// The running tally of one testing session.
pub struct TestSummary {
    pub generate_mode: bool,
    pub start_time: Instant,
    pub total: usize,
    pub processed: usize,
    pub success: usize,
    pub incorrect: usize,
    pub timed_out: usize,
    pub invalid_output: usize,
    pub memory_limit_exceeded: usize,
    pub runtime_error: usize,
    pub sio2jail_error: usize,
    pub checker_error: usize,
    pub no_output_file: usize,
    pub test_errors: Vec<(String, TestError)>,
    pub slowest_test: Option<(Millis, String)>,
    pub most_memory_used: Option<(u64, String)>,
}

/// Each processed test stands in exactly one category.
pub open spec fn counts_consistent(s: TestSummary) -> bool {
    s.processed == s.success + s.incorrect + s.timed_out + s.invalid_output
        + s.memory_limit_exceeded + s.runtime_error + s.sio2jail_error + s.checker_error
        + s.no_output_file
}

/// The category an error is tallied under.
pub open spec fn error_category(e: TestError) -> int {
    match e {
        TestError::Incorrect { .. } => 0,
        TestError::ProgramError { error: ExecutionError::TimedOut } => 1,
        TestError::ProgramError { error: ExecutionError::MemoryLimitExceeded } => 2,
        TestError::ProgramError { error: ExecutionError::RuntimeError(_) } => 3,
        TestError::ProgramError { error: ExecutionError::Sio2jailError(_) } => 4,
        TestError::ProgramError { error: ExecutionError::IncorrectCheckerFormat(_) } => 5,
        TestError::ProgramError { error: ExecutionError::PipeError } => 6,
        TestError::ProgramError { error: ExecutionError::OutputNotUtf8 } => 6,
        TestError::CheckerError { .. } => 5,
        TestError::NoOutputFile => 7,
        TestError::Cancelled => 8,
    }
}

/// How the slowest-test record moves when one measurement arrives:
/// kept unless the new time strictly beats it.
pub open spec fn slowest_updated(
    before: Option<(Millis, String)>,
    after: Option<(Millis, String)>,
    time: Option<Millis>,
    name: Seq<char>,
) -> bool {
    match time {
        None => after == before,
        Some(t) => {
            let beats = match before {
                None => true,
                Some((prev, _)) => t > prev,
            };
            if beats {
                after matches Some((t2, n2)) && t2 == t && n2@ == name
            } else {
                after == before
            }
        },
    }
}

/// How the most-memory record moves when one measurement arrives:
/// kept unless the new figure strictly beats it.
pub open spec fn memory_updated(
    before: Option<(u64, String)>,
    after: Option<(u64, String)>,
    memory: Option<u64>,
    name: Seq<char>,
) -> bool {
    match memory {
        None => after == before,
        Some(m) => {
            let beats = match before {
                None => true,
                Some((prev, _)) => m > prev,
            };
            if beats {
                after matches Some((m2, n2)) && m2 == m && n2@ == name
            } else {
                after == before
            }
        },
    }
}

impl TestSummary {
    /// A fresh tally over `total_count` tests, started now.
    pub fn new(generate_mode: bool, total_count: usize) -> (r: TestSummary)
        ensures
            r.generate_mode == generate_mode,
            r.total == total_count,
            r.processed == 0,
            r.success == 0,
            r.incorrect == 0,
            r.timed_out == 0,
            r.invalid_output == 0,
            r.memory_limit_exceeded == 0,
            r.runtime_error == 0,
            r.sio2jail_error == 0,
            r.checker_error == 0,
            r.no_output_file == 0,
            r.test_errors@ == Seq::<(String, TestError)>::empty(),
            r.slowest_test is None,
            r.most_memory_used is None,
            counts_consistent(r),
    {
        TestSummary {
            generate_mode,
            start_time: instant_now(),
            total: total_count,
            processed: 0,
            success: 0,
            incorrect: 0,
            timed_out: 0,
            invalid_output: 0,
            memory_limit_exceeded: 0,
            runtime_error: 0,
            sio2jail_error: 0,
            checker_error: 0,
            no_output_file: 0,
            test_errors: Vec::new(),
            slowest_test: None,
            most_memory_used: None,
        }
    }

    /// Tallies one passed test and folds in its measurements.
    pub fn add_success(&mut self, metrics: &ExecutionMetrics, test_name: &str)
        requires
            counts_consistent(*old(self)),
            old(self).processed < usize::MAX,
        ensures
            counts_consistent(*final(self)),
            final(self).processed == old(self).processed + 1,
            final(self).success == old(self).success + 1,
            *final(self) == (TestSummary {
                processed: final(self).processed,
                success: final(self).success,
                slowest_test: final(self).slowest_test,
                most_memory_used: final(self).most_memory_used,
                ..*old(self)
            }),
            slowest_updated(
                old(self).slowest_test,
                final(self).slowest_test,
                metrics.time,
                test_name@,
            ),
            memory_updated(
                old(self).most_memory_used,
                final(self).most_memory_used,
                metrics.memory_kibibytes,
                test_name@,
            ),
    {
        self.processed += 1;
        self.success += 1;
        self.add_metrics(metrics, test_name);
    }

    /// Tallies one failed test under its category and records the error
    /// for the final listing.  Cancellation is not a test outcome and
    /// never reaches the tally.
    pub fn add_test_error(&mut self, error: TestError, test_name: String)
        requires
            counts_consistent(*old(self)),
            old(self).processed < usize::MAX,
            !(error is Cancelled),
        ensures
            counts_consistent(*final(self)),
            final(self).processed == old(self).processed + 1,
            final(self).success == old(self).success,
            final(self).incorrect == old(self).incorrect + if error_category(error) == 0 {
                1int
            } else {
                0int
            },
            final(self).timed_out == old(self).timed_out + if error_category(error) == 1 {
                1int
            } else {
                0int
            },
            final(self).memory_limit_exceeded == old(self).memory_limit_exceeded + if error_category(
                error,
            ) == 2 {
                1int
            } else {
                0int
            },
            final(self).runtime_error == old(self).runtime_error + if error_category(error) == 3 {
                1int
            } else {
                0int
            },
            final(self).sio2jail_error == old(self).sio2jail_error + if error_category(error) == 4 {
                1int
            } else {
                0int
            },
            final(self).checker_error == old(self).checker_error + if error_category(error) == 5 {
                1int
            } else {
                0int
            },
            final(self).invalid_output == old(self).invalid_output + if error_category(error) == 6 {
                1int
            } else {
                0int
            },
            final(self).no_output_file == old(self).no_output_file + if error_category(error) == 7 {
                1int
            } else {
                0int
            },
            final(self).test_errors@ == old(self).test_errors@.push((test_name, error)),
            *final(self) == (TestSummary {
                processed: final(self).processed,
                incorrect: final(self).incorrect,
                timed_out: final(self).timed_out,
                memory_limit_exceeded: final(self).memory_limit_exceeded,
                runtime_error: final(self).runtime_error,
                sio2jail_error: final(self).sio2jail_error,
                checker_error: final(self).checker_error,
                invalid_output: final(self).invalid_output,
                no_output_file: final(self).no_output_file,
                test_errors: final(self).test_errors,
                ..*old(self)
            }),
    {
        self.processed += 1;
        match &error {
            TestError::Incorrect { .. } => {
                self.incorrect += 1;
            },
            TestError::ProgramError { error: ExecutionError::TimedOut } => {
                self.timed_out += 1;
            },
            TestError::ProgramError { error: ExecutionError::MemoryLimitExceeded } => {
                self.memory_limit_exceeded += 1;
            },
            TestError::ProgramError { error: ExecutionError::RuntimeError(_) } => {
                self.runtime_error += 1;
            },
            TestError::ProgramError { error: ExecutionError::Sio2jailError(_) } => {
                self.sio2jail_error += 1;
            },
            TestError::ProgramError { error: ExecutionError::IncorrectCheckerFormat(_) } => {
                self.checker_error += 1;
            },
            TestError::ProgramError { error: ExecutionError::PipeError } => {
                self.invalid_output += 1;
            },
            TestError::ProgramError { error: ExecutionError::OutputNotUtf8 } => {
                self.invalid_output += 1;
            },
            TestError::CheckerError { .. } => {
                self.checker_error += 1;
            },
            TestError::NoOutputFile => {
                self.no_output_file += 1;
            },
            TestError::Cancelled => {
                proof {
                    assert(false);
                }
            },
        }
        self.test_errors.push((test_name, error));
    }

    /// Folds one test's measurements into the extremes: the slowest
    /// test and the test that used the most memory, each kept only when
    /// strictly beaten.
    pub fn add_metrics(&mut self, metrics: &ExecutionMetrics, test_name: &str)
        ensures
            *final(self) == (TestSummary {
                slowest_test: final(self).slowest_test,
                most_memory_used: final(self).most_memory_used,
                ..*old(self)
            }),
            slowest_updated(
                old(self).slowest_test,
                final(self).slowest_test,
                metrics.time,
                test_name@,
            ),
            memory_updated(
                old(self).most_memory_used,
                final(self).most_memory_used,
                metrics.memory_kibibytes,
                test_name@,
            ),
    {
        if let Some(new_time) = metrics.time {
            let beats = match &self.slowest_test {
                None => true,
                Some((prev, _)) => new_time > *prev,
            };
            if beats {
                self.slowest_test = Some((new_time, test_name.to_owned()));
            }
        }
        if let Some(new_memory) = metrics.memory_kibibytes {
            let beats = match &self.most_memory_used {
                None => true,
                Some((prev, _)) => new_memory > *prev,
            };
            if beats {
                self.most_memory_used = Some((new_memory, test_name.to_owned()));
            }
        }
    }

    /// The one-line tally, colored: counts of every category that is
    /// non-zero (the successes always), and optionally the tests not
    /// finished yet.
    pub fn format_counts(&self, show_not_finished: bool) -> String {
        let not_finished: usize = if show_not_finished && self.total > self.processed {
            self.total - self.processed
        } else {
            0
        };
        let success_text = if self.generate_mode {
            "successful"
        } else {
            "correct"
        };
        let parts: [CountPart<'_>; 10] = [
            CountPart::new(self.success, success_text).display_empty().with_color(
                CountColor::Green,
            ),
            CountPart::new(self.incorrect, "wrong answer").with_plural("wrong answers"),
            CountPart::new(self.timed_out, "timed out"),
            CountPart::new(self.invalid_output, "invalid output").with_plural("invalid outputs"),
            CountPart::new(self.memory_limit_exceeded, "out of memory"),
            CountPart::new(self.runtime_error, "runtime error").with_plural("runtime errors"),
            CountPart::new(self.no_output_file, "without output file"),
            CountPart::new(self.sio2jail_error, "sio2jail error").with_plural("sio2jail errors"),
            CountPart::new(self.checker_error, "checker error").with_plural("checker errors")
                .with_color(CountColor::Blue),
            CountPart::new(not_finished, "not finished").with_color(CountColor::Yellow),
        ];
        let mut out = String::new();
        let mut first = true;
        let mut i: usize = 0;
        while i < 10
            decreases 10 - i,
        {
            let part = &parts[i];
            if part.display_empty || part.count > 0 {
                if !first {
                    out.append(", ");
                }
                first = false;
                let mut piece = u64_to_string(part.count as u64);
                piece.append(" ");
                piece.append(part.get_text());
                let painted = match part.color {
                    CountColor::Red => paint_red(piece.as_str()),
                    CountColor::Green => paint_green(piece.as_str()),
                    CountColor::Blue => paint_blue(piece.as_str()),
                    CountColor::Yellow => paint_yellow(piece.as_str()),
                };
                out.append(painted.as_str());
            }
            i += 1;
        }
        out
    }

    /// The recorded errors, brought into the human order of their test
    /// names: the listing holds exactly the errors that were added,
    /// with no adjacent pair out of order.  A name whose digit runs the
    /// comparator cannot take (ten digits or more in a row) leaves the
    /// listing in insertion order instead.
    pub fn get_errors(&mut self) -> (r: &Vec<(String, TestError)>)
        ensures
            *final(self) == (TestSummary { test_errors: final(self).test_errors, ..*old(self) }),
            final(self).test_errors@.to_multiset() == old(self).test_errors@.to_multiset(),
            r@ == final(self).test_errors@,
            all_names_sortable(old(self).test_errors@) ==> human_ordered(
                final(self).test_errors@,
            ),
    {
        let n = self.test_errors.len();
        let mut all_fit = true;
        let mut idx: usize = 0;
        while idx < n
            invariant
                idx <= n,
                n == self.test_errors@.len(),
                *self == (TestSummary { test_errors: self.test_errors, ..*old(self) }),
                self.test_errors@ == old(self).test_errors@,
                all_fit ==> (forall|k: int|
                    0 <= k < idx ==> sortable_name(#[trigger] self.test_errors@[k].0@)),
                !all_fit ==> !all_names_sortable(self.test_errors@),
            decreases n - idx,
        {
            if !name_sortable(self.test_errors[idx].0.as_str()) {
                all_fit = false;
            }
            idx += 1;
        }
        if !all_fit {
            proof {
                assert(!all_names_sortable(old(self).test_errors@));
            }
            return &self.test_errors;
        }
        assert(all_names_sortable(self.test_errors@));
        if n == 0 {
            proof {
                assert(human_ordered(self.test_errors@));
            }
            return &self.test_errors;
        }
        let ghost orig = self.test_errors@;
        let mut i: usize = 1;
        while i < n
            invariant
                1 <= i <= n,
                n == self.test_errors@.len(),
                *self == (TestSummary { test_errors: self.test_errors, ..*old(self) }),
                self.test_errors@.to_multiset() == orig.to_multiset(),
                all_names_sortable(self.test_errors@),
                human_ordered(self.test_errors@.take(i as int)),
            decreases n - i,
        {
            let ghost pre = self.test_errors@;
            let x = self.test_errors.remove(i);
            let ghost mid = self.test_errors@;
            proof {
                broadcast use vstd::seq_lib::group_to_multiset_ensures;

                assert(pre.contains(x)) by {
                    assert(pre[i as int] == x);
                }
                assert(mid.to_multiset() =~= pre.to_multiset().remove(x));
                assert forall|k: int|
                    0 <= k < mid.len() implies sortable_name(#[trigger] mid[k].0@) by {
                    if k < i {
                        assert(mid[k] == pre[k]);
                    } else {
                        assert(mid[k] == pre[k + 1]);
                    }
                }
                assert(mid.take(i as int) =~= pre.take(i as int));
            }
            let mut j: usize = i;
            while j > 0
                invariant
                    j <= i,
                    i < n,
                    self.test_errors@ == mid,
                    mid.len() == n - 1,
                    *self == (TestSummary { test_errors: self.test_errors, ..*old(self) }),
                    all_names_sortable(mid),
                    sortable_name(x.0@),
                    forall|k: int|
                        j <= k < i ==> (#[trigger] human_order(mid[k].0@, x.0@)) is Greater,
                ensures
                    j <= i,
                    self.test_errors@ == mid,
                    forall|k: int|
                        j <= k < i ==> (#[trigger] human_order(mid[k].0@, x.0@)) is Greater,
                    j == 0 || !((human_order(x.0@, mid[j - 1].0@)) is Less),
                decreases j,
            {
                let ord = human_compare(self.test_errors[j - 1].0.as_str(), x.0.as_str());
                if matches!(ord, core::cmp::Ordering::Greater) {
                    j -= 1;
                } else {
                    break ;
                }
            }
            self.test_errors.insert(j, x);
            proof {
                broadcast use vstd::seq_lib::group_to_multiset_ensures;

                let post = self.test_errors@;
                lemma_insert_to_multiset(mid, j as int, x);
                assert(post.to_multiset() =~= orig.to_multiset()) by {
                    broadcast use vstd::multiset::group_multiset_axioms;

                    assert(pre.to_multiset().count(x) > 0);
                    assert(pre.to_multiset().remove(x).insert(x) =~= pre.to_multiset());
                }
                assert forall|k: int|
                    0 <= k < post.len() implies sortable_name(#[trigger] post[k].0@) by {
                    if k < j {
                        assert(post[k] == mid[k]);
                    } else if k == j {
                        assert(post[k] == x);
                    } else {
                        assert(post[k] == mid[k - 1]);
                    }
                }
                assert(human_ordered(mid.take(i as int)));
                assert forall|k: int|
                    0 <= k < i implies !((#[trigger] human_order(
                    post.take(i + 1)[k + 1].0@,
                    post.take(i + 1)[k].0@,
                )) is Less) by {
                    assert(post.take(i + 1)[k] == post[k]);
                    assert(post.take(i + 1)[k + 1] == post[k + 1]);
                    if k + 1 < j {
                        assert(post[k] == mid[k]);
                        assert(post[k + 1] == mid[k + 1]);
                        assert(mid.take(i as int)[k] == mid[k]);
                        assert(mid.take(i as int)[k + 1] == mid[k + 1]);
                        assert(!((human_order(
                            mid.take(i as int)[k + 1].0@,
                            mid.take(i as int)[k].0@,
                        )) is Less));
                    } else if k + 1 == j {
                        assert(post[k] == mid[k]);
                        assert(post[k + 1] == x);
                    } else if k == j {
                        assert(post[k] == x);
                        assert(post[k + 1] == mid[k]);
                        assert((human_order(mid[k].0@, x.0@)) is Greater);
                    } else {
                        assert(post[k] == mid[k - 1]);
                        assert(post[k + 1] == mid[k]);
                        let kk = k - 1;
                        assert(mid.take(i as int)[kk] == mid[kk]);
                        assert(mid.take(i as int)[kk + 1] == mid[kk + 1]);
                        assert(!((human_order(
                            mid.take(i as int)[kk + 1].0@,
                            mid.take(i as int)[kk].0@,
                        )) is Less));
                    }
                }
                assert(human_ordered(post.take(i + 1)));
            }
            i += 1;
        }
        proof {
            assert(self.test_errors@.take(n as int) =~= self.test_errors@);
        }
        &self.test_errors
    }
}

/// Every name in the listing is one the comparator can take.
pub open spec fn all_names_sortable(v: Seq<(String, TestError)>) -> bool {
    forall|k: int| 0 <= k < v.len() ==> sortable_name(#[trigger] v[k].0@)
}

/// No adjacent pair of the listing is out of order: no entry comes
/// strictly before its predecessor under the comparator.  The adjacent
/// form is what direct comparisons establish; nothing in the outside
/// comparator's source plainly gives transitivity, so no more is
/// claimed of it.
pub open spec fn human_ordered(v: Seq<(String, TestError)>) -> bool {
    forall|k: int|
        0 <= k < v.len() - 1 ==> !((#[trigger] human_order(v[k + 1].0@, v[k].0@)) is Less)
}

/// Digit runs stay under the given budget: reading `s` left to right,
/// at most `budget` digits follow any non-digit (or the start) before
/// another non-digit comes.
pub open spec fn digit_runs_bounded(s: Seq<char>, budget: nat) -> bool
    decreases s.len(),
{
    if s.len() == 0 {
        true
    } else if is_dec_digit(s[0]) {
        budget > 0 && digit_runs_bounded(s.drop_first(), (budget - 1) as nat)
    } else {
        digit_runs_bounded(s.drop_first(), 9)
    }
}

/// A name the comparator can take: every run of consecutive digits is
/// at most nine digits long, so its value fits the 32 bits the
/// comparator folds a run into.
pub open spec fn sortable_name(s: Seq<char>) -> bool {
    digit_runs_bounded(s, 9)
}

/// Whether every digit run of `s` is at most nine digits long.
pub fn name_sortable(s: &str) -> (r: bool)
    ensures
        r == sortable_name(s@),
{
    let len = s.unicode_len();
    let mut i: usize = 0;
    let mut budget: u64 = 9;
    proof {
        assert(s@.skip(0) =~= s@);
    }
    while i < len
        invariant
            i <= len,
            len == s@.len(),
            budget <= 9,
            sortable_name(s@) == digit_runs_bounded(s@.skip(i as int), budget as nat),
        decreases len - i,
    {
        let c = s.get_char(i);
        proof {
            assert(s@.skip(i as int).drop_first() =~= s@.skip(i + 1));
        }
        if c >= '0' && c <= '9' {
            if budget == 0 {
                return false;
            }
            budget -= 1;
        } else {
            budget = 9;
        }
        i += 1;
    }
    proof {
        assert(s@.skip(len as int) =~= Seq::<char>::empty());
    }
    true
}

/// Inserting anywhere adds exactly one occurrence to the listing's
/// multiset.
proof fn lemma_insert_to_multiset(v: Seq<(String, TestError)>, j: int, x: (String, TestError))
    requires
        0 <= j <= v.len(),
    ensures
        v.insert(j, x).to_multiset() =~= v.to_multiset().insert(x),
{
    broadcast use vstd::seq_lib::group_to_multiset_ensures;
    broadcast use vstd::multiset::group_multiset_axioms;

    let front = v.subrange(0, j);
    let back = v.subrange(j, v.len() as int);
    assert(v.insert(j, x) =~= front.push(x) + back);
    vstd::seq_lib::lemma_multiset_commutative(front.push(x), back);
    assert(front.push(x).to_multiset() =~= front.to_multiset().insert(x));
    assert(v =~= front + back);
    vstd::seq_lib::lemma_multiset_commutative(front, back);
    assert forall|e: (String, TestError)|
        #[trigger] v.insert(j, x).to_multiset().count(e) == v.to_multiset().insert(x).count(
            e,
        ) by {
    }
}

/// The order `human_compare` puts two texts in: a fixed function of the
/// two texts alone.
pub uninterp spec fn human_order(a: Seq<char>, b: Seq<char>) -> core::cmp::Ordering;

/// Relies on human-sort's compare: texts ordered naturally, runs of
/// digits by their value.  The comparator folds each digit run into a
/// 32-bit value, so the inputs must keep every run under ten digits;
/// and each of its branches answers with the comparison of the
/// mirrored operands, so swapping the arguments turns Less into
/// Greater and back.
#[verifier::external_body]
fn human_compare(a: &str, b: &str) -> (r: core::cmp::Ordering)
    requires
        sortable_name(a@),
        sortable_name(b@),
    ensures
        r == human_order(a@, b@),
        (r is Less) == (human_order(b@, a@) is Greater),
        (r is Greater) == (human_order(b@, a@) is Less),
{
    human_sort::compare(a, b)
}

} // verus!
