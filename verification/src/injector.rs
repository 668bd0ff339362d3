use vstd::prelude::*;

use crate::config::{MistakeConfig, MistakeType, MistakesConfig};
use crate::filter::{Filter, InjectorError, Method};
use crate::rng::{fill_random, random_in_range};

verus! {

/// The buffer keeps its length and only bytes inside `[pos, pos + len)`
/// may differ from the original.
pub open spec fn mutated_only_within(pre: Seq<u8>, post: Seq<u8>, pos: int, len: int) -> bool {
    &&& post.len() == pre.len()
    &&& forall|i: int| 0 <= i < pre.len() && !(pos <= i < pos + len) ==> post[i] == pre[i]
}

/// The buffer keeps its length and every byte is either kept or zeroed.
pub open spec fn zeroing_only(pre: Seq<u8>, post: Seq<u8>) -> bool {
    &&& post.len() == pre.len()
    &&& forall|i: int| 0 <= i < pre.len() ==> post[i] == pre[i] || post[i] == 0
}

/// Some in-bounds, non-empty range `[pos, pos + len)` of the buffer is zero.
pub open spec fn has_zero_run(post: Seq<u8>, pos: int, len: int) -> bool {
    &&& 1 <= len
    &&& 0 <= pos
    &&& pos + len <= post.len()
    &&& forall|i: int| pos <= i < pos + len ==> post[i] == 0
}

/// One corrupted range as a rule produces it: in bounds, no longer than the
/// rule's length bound, the only bytes that changed, zeroed when the rule
/// zeroes, and degenerate on an empty buffer.
pub open spec fn single_range_effect(
    rule: MistakeConfig,
    pre: Seq<u8>,
    post: Seq<u8>,
    pos: int,
    len: int,
) -> bool {
    &&& 0 <= pos
    &&& 0 <= len
    &&& pos + len <= pre.len()
    &&& len <= rule.max_length
    &&& mutated_only_within(pre, post, pos, len)
    &&& (rule.class is Zero ==> forall|i: int| pos <= i < pos + len ==> post[i] == 0)
    &&& (pre.len() == 0 ==> pos == 0 && len == 0)
}

/// Everything one pass of a single rule guarantees of the buffer, whatever
/// the random draws came out to.
pub open spec fn rule_effect(rule: MistakeConfig, pre: Seq<u8>, post: Seq<u8>) -> bool {
    &&& post.len() == pre.len()
    &&& (rule.percent == 0 ==> post == pre)
    &&& (rule.max_occurrences == 0 ==> post == pre)
    &&& (rule.max_length == 0 ==> post == pre)
    &&& (rule.class is Zero ==> zeroing_only(pre, post))
    &&& (rule.max_occurrences <= 1 ==> exists|pos: int, len: int|
        single_range_effect(rule, pre, post, pos, len))
    &&& (rule.percent >= 100 && rule.max_occurrences == 1 && rule.max_length >= 1 && pre.len() >= 1
        ==> exists|pos: int, len: int| single_range_effect(rule, pre, post, pos, len) && len >= 1)
    &&& (rule.percent >= 100 && rule.max_occurrences >= 1 && rule.max_length >= 1
        && rule.class is Zero && pre.len() >= 1 ==> exists|pos: int, len: int|
        has_zero_run(post, pos, len) && len <= rule.max_length)
}

/// Everything one call of the buffer-mutation routine guarantees: the length
/// is kept; a rule list that can never corrupt leaves the buffer untouched;
/// an all-zeroing rule list only keeps or zeroes bytes; and a single rule
/// keeps every per-rule guarantee.
pub open spec fn handle_effect(rules: Seq<MistakeConfig>, pre: Seq<u8>, post: Seq<u8>) -> bool {
    &&& post.len() == pre.len()
    &&& ((forall|j: int| 0 <= j < rules.len() ==> (#[trigger] rules[j]).inert()) ==> post == pre)
    &&& ((forall|j: int| 0 <= j < rules.len() ==> (#[trigger] rules[j]).class is Zero)
        ==> zeroing_only(pre, post))
    &&& (rules.len() == 1 ==> rule_effect(rules[0], pre, post))
    &&& (rules.len() >= 1 && certainly_zeroes(rules[rules.len() - 1]) && pre.len() >= 1
        ==> exists|pos: int, len: int| has_zero_run(post, pos, len))
}

/// A rule that zeroes some non-empty range on every invocation that reaches
/// a non-empty buffer: it always fires and always produces an occurrence.
pub open spec fn certainly_zeroes(rule: MistakeConfig) -> bool {
    rule.percent >= 100 && rule.max_occurrences >= 1 && rule.max_length >= 1
        && rule.class is Zero
}

/// One occurrence of a firing rule: picks a start position and a bounded
/// length at random and applies the mutation pattern over that range,
/// returning the chosen `(pos, length)`.
pub fn apply_occurrence(data: &mut Vec<u8>, max_length: usize, class: MistakeType) -> (r: (
    usize,
    usize,
))
    ensures
        final(data)@.len() == old(data)@.len(),
        r.0 + r.1 <= old(data)@.len(),
        r.1 <= max_length,
        old(data)@.len() == 0 ==> r.0 == 0 && r.1 == 0,
        old(data)@.len() > 0 ==> r.0 < old(data)@.len(),
        old(data)@.len() > 0 && max_length > 0 ==> r.1 >= 1,
        mutated_only_within(old(data)@, final(data)@, r.0 as int, r.1 as int),
        class is Zero ==> forall|i: int| r.0 <= i < r.0 + r.1 ==> final(data)@[i] == 0,
        class is Zero ==> zeroing_only(old(data)@, final(data)@),
{
    let data_length = data.len();
    let pos: usize = if data_length == 0 {
        0
    } else {
        random_in_range(0, data_length)
    };
    let feasible: usize = if max_length < data_length - pos {
        max_length
    } else {
        data_length - pos
    };
    let length: usize = if feasible == 0 {
        0
    } else if feasible == 1 {
        1
    } else {
        random_in_range(1, feasible)
    };
    match class {
        MistakeType::Zero => {
            let end = pos + length;
            for i in pos..end
                invariant
                    data@.len() == old(data)@.len(),
                    pos + length == end,
                    end <= data@.len(),
                    forall|j: int|
                        0 <= j < data@.len() && !(pos <= j < i) ==> data@[j] == old(data)@[j],
                    forall|j: int| pos <= j < i ==> data@[j] == 0,
            {
                data[i] = 0;
            }
        },
        MistakeType::Random => {
            fill_random(data, pos, length);
        },
    }
    (pos, length)
}

/// One pass of a single rule over the buffer: decides whether the rule
/// fires, draws its occurrence count, and applies that many occurrences.
pub fn apply_rule(data: &mut Vec<u8>, rule: &MistakeConfig)
    ensures
        rule_effect(*rule, old(data)@, final(data)@),
{
    let draw = random_in_range(0, 100);
    if draw >= rule.percent as usize {
        // The rule does not fire on this invocation.
        proof {
            assert(single_range_effect(*rule, old(data)@, data@, 0, 0));
        }
        return;
    }
    let occurrence: usize = if rule.max_occurrences == 0 {
        0
    } else if rule.max_occurrences == 1 {
        1
    } else {
        random_in_range(1, rule.max_occurrences)
    };
    let mut k: usize = 0;
    proof {
        assert(single_range_effect(*rule, old(data)@, data@, 0, 0));
    }
    while k < occurrence
        invariant
            k <= occurrence,
            data@.len() == old(data)@.len(),
            rule.class is Zero ==> zeroing_only(old(data)@, data@),
            k == 0 ==> data@ == old(data)@,
            rule.max_length == 0 ==> data@ == old(data)@,
            occurrence <= 1 ==> exists|pos: int, len: int|
                single_range_effect(*rule, old(data)@, data@, pos, len),
            k >= 1 && occurrence == 1 && rule.max_length >= 1 && old(data)@.len() >= 1 ==> exists|
                pos: int,
                len: int,
            | single_range_effect(*rule, old(data)@, data@, pos, len) && len >= 1,
            k >= 1 && rule.max_length >= 1 && rule.class is Zero && old(data)@.len() >= 1
                ==> exists|pos: int, len: int|
                has_zero_run(data@, pos, len) && len <= rule.max_length,
        decreases occurrence - k,
    {
        let (pos, length) = apply_occurrence(data, rule.max_length, rule.class);
        proof {
            if rule.class is Zero {
                assert(zeroing_only(old(data)@, data@));
            }
            if rule.max_length == 0 {
                assert(data@ =~= old(data)@);
            }
            if k == 0 {
                assert(single_range_effect(*rule, old(data)@, data@, pos as int, length as int));
            }
            if rule.max_length >= 1 && rule.class is Zero && old(data)@.len() >= 1 {
                assert(has_zero_run(data@, pos as int, length as int));
            }
        }
        k = k + 1;
    }
}

/// A reply handed back for a completed operation: only a successful data
/// read carries a payload the engine may corrupt.
#[derive(Debug)]
pub enum Reply {
    /// A successful data read; the payload is what the caller will see.
    Data(DataReply),
    /// Any other reply: opaque to the engine, never touched.
    Other,
}

/// The payload of a successful data read.
#[derive(Debug)]
pub struct DataReply {
    pub data: Vec<u8>,
}

/// The mistake-injection engine: an ordered list of corruption rules and
/// the filter gating which operations they may corrupt. Built once from
/// configuration, immutable thereafter.
#[derive(Debug)]
pub struct MistakeInjector {
    mistakes: Vec<MistakeConfig>,
    filter: Filter,
}

impl MistakeInjector {
    /// The ordered corruption rules this engine applies.
    pub closed spec fn rules(self) -> Seq<MistakeConfig> {
        self.mistakes@
    }

    /// What this engine's filter admits.
    pub closed spec fn admits(self, method: Method, path: Seq<char>) -> bool {
        self.filter.admits(method, path)
    }

    /// Builds the engine from configuration. The only fallible path: it
    /// fails exactly when the filter cannot be built, and otherwise hands
    /// back an engine with exactly the configured rules and filter.
    pub fn build(conf: MistakesConfig) -> (r: Result<MistakeInjector, InjectorError>)
        ensures
            r is Ok <==> conf.filter.well_formed(),
            r matches Ok(e) ==> e.rules() == conf.mistakes@ && forall|m: Method, p: Seq<char>|
                #[trigger] e.admits(m, p) == conf.filter.admits(m, p),
    {
        let filter = match Filter::build(conf.filter) {
            Ok(f) => f,
            Err(e) => {
                return Err(e);
            },
        };
        Ok(MistakeInjector { mistakes: conf.mistakes, filter })
    }

    /// The buffer-mutation routine: applies each rule in order to the same
    /// buffer, so a later rule may overwrite bytes an earlier one corrupted.
    pub fn handle(&self, data: &mut Vec<u8>)
        ensures
            handle_effect(self.rules(), old(data)@, final(data)@),
    {
        let n = self.mistakes.len();
        for j in 0..n
            invariant
                n == self.mistakes@.len(),
                data@.len() == old(data)@.len(),
                (forall|k: int| 0 <= k < j ==> (#[trigger] self.mistakes@[k]).inert()) ==> data@
                    == old(data)@,
                (forall|k: int| 0 <= k < j ==> (#[trigger] self.mistakes@[k]).class is Zero)
                    ==> zeroing_only(old(data)@, data@),
                j == 0 ==> data@ == old(data)@,
                self.mistakes@.len() == 1 && j == 1 ==> rule_effect(
                    self.mistakes@[0],
                    old(data)@,
                    data@,
                ),
                j >= 1 && certainly_zeroes(self.mistakes@[j - 1]) && old(data)@.len() >= 1
                    ==> exists|pos: int, len: int| has_zero_run(data@, pos, len),
        {
            let ghost mid = data@;
            apply_rule(data, &self.mistakes[j]);
            proof {
                if forall|k: int| 0 <= k < j + 1 ==> (#[trigger] self.mistakes@[k]).inert() {
                    assert(mid == old(data)@);
                    assert(data@ == mid);
                }
                if forall|k: int| 0 <= k < j + 1 ==> (#[trigger] self.mistakes@[k]).class
                    is Zero {
                    assert(zeroing_only(old(data)@, data@));
                }
            }
        }
    }

    /// The pre-operation hook: a reserved extension point that corrupts
    /// nothing and always succeeds.
    pub fn inject(&self, _method: &Method, _path: &str) -> (r: Result<(), InjectorError>)
        ensures
            r is Ok,
    {
        Ok(())
    }

    /// The post-read hook: when the filter admits the operation and the
    /// reply carries a payload, corrupts that payload in place. It always
    /// succeeds and never changes the payload's length or the reply's shape.
    pub fn inject_reply(&self, method: &Method, path: &str, reply: &mut Reply) -> (r: Result<
        (),
        InjectorError,
    >)
        ensures
            r is Ok,
            !self.admits(*method, path@) ==> *final(reply) == *old(reply),
            *old(reply) is Other ==> *final(reply) == *old(reply),
            *old(reply) matches Reply::Data(pre) ==> {
                &&& (*final(reply)) matches Reply::Data(post) && post.data@.len()
                    == pre.data@.len()
                &&& self.admits(*method, path@) ==> ((*final(reply)) matches Reply::Data(post)
                    && handle_effect(self.rules(), pre.data@, post.data@))
            },
    {
        if self.filter.filter(method, path) {
            match reply {
                Reply::Data(data_reply) => {
                    self.handle(&mut data_reply.data);
                },
                Reply::Other => {},
            }
        }
        Ok(())
    }

    /// The pre-write hook: when the filter admits a write to this path,
    /// corrupts the outgoing buffer in place. It always succeeds and never
    /// changes the buffer's length.
    pub fn inject_write_data(&self, path: &str, data: &mut Vec<u8>) -> (r: Result<
        (),
        InjectorError,
    >)
        ensures
            r is Ok,
            final(data)@.len() == old(data)@.len(),
            !self.admits(Method::Write, path@) ==> final(data)@ == old(data)@,
            self.admits(Method::Write, path@) ==> handle_effect(
                self.rules(),
                old(data)@,
                final(data)@,
            ),
    {
        if self.filter.filter(&Method::Write, path) {
            self.handle(data);
        }
        Ok(())
    }
}

} // verus!
