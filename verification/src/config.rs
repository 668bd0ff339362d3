use vstd::prelude::*;

use crate::filter::FilterConfig;

verus! {

/// The pattern applied to a chosen byte range when a rule fires.
#[derive(Clone, Copy, Debug, PartialEq, Eq, Structural)]
pub enum MistakeType {
    /// Every byte in the chosen range is set to zero.
    Zero,
    /// Every byte in the chosen range is overwritten with a random value.
    Random,
}

/// One corruption policy: fire chance, occurrence bound, length bound and
/// the mutation pattern. Values are configuration-time constants, immutable
/// for the engine's lifetime.
#[derive(Clone, Copy, Debug, PartialEq, Eq, Structural)]
pub struct MistakeConfig {
    /// Probability, in whole percent, that this rule fires on an invocation.
    pub percent: u8,
    /// Upper bound on how many corrupted ranges one firing may produce.
    pub max_occurrences: usize,
    /// Upper bound on the byte length of any single corrupted range.
    pub max_length: usize,
    /// The mutation pattern applied to each chosen range.
    pub class: MistakeType,
}

impl MistakeConfig {
    /// A rule that can never change a buffer, whatever the random draws:
    /// it never fires, produces no occurrence, or only empty ranges.
    pub open spec fn inert(self) -> bool {
        self.percent == 0 || self.max_occurrences == 0 || self.max_length == 0
    }
}

/// Configuration for the whole engine: the ordered corruption rules plus
/// the configuration the filter is built from.
pub struct MistakesConfig {
    /// The corruption rules, applied in order on the same buffer.
    pub mistakes: Vec<MistakeConfig>,
    /// Declares which operation kinds and paths are in scope.
    pub filter: FilterConfig,
}

} // verus!
