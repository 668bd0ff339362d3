use vstd::prelude::*;

use vstd::string::StrSliceExecFns;

verus! {

/// The kind of filesystem operation a hook is invoked for.
#[derive(Clone, Copy, Debug, PartialEq, Eq, Structural)]
pub enum Method {
    Read,
    Write,
}

/// The engine's error type. Construction is the only fallible path: a filter
/// configuration whose path pattern is malformed cannot be turned into a
/// working filter.
#[derive(Clone, Copy, Debug, PartialEq, Eq, Structural)]
pub enum InjectorError {
    /// A path pattern in the filter configuration is empty.
    MalformedPattern,
}

/// Declares which operation kinds and paths are in scope for corruption:
/// an operation is in scope when its kind is listed and its path starts
/// with one of the listed patterns.
pub struct FilterConfig {
    /// The operation kinds in scope.
    pub methods: Vec<Method>,
    /// Path prefixes in scope; a pattern must name at least one character.
    pub path_patterns: Vec<String>,
}

/// `pattern` is a prefix of `path`.
pub open spec fn is_prefix_of(pattern: Seq<char>, path: Seq<char>) -> bool {
    pattern.len() <= path.len() && forall|i: int| 0 <= i < pattern.len() ==> pattern[i] == path[i]
}

impl FilterConfig {
    /// Every configured path pattern is well formed (non-empty).
    pub open spec fn well_formed(self) -> bool {
        forall|i: int|
            0 <= i < self.path_patterns@.len() ==> (#[trigger] self.path_patterns@[i])@.len() > 0
    }

    /// The predicate this configuration describes: the operation kind is
    /// listed and some configured pattern is a prefix of the path.
    pub open spec fn admits(self, method: Method, path: Seq<char>) -> bool {
        &&& self.methods@.contains(method)
        &&& exists|i: int|
            0 <= i < self.path_patterns@.len() && is_prefix_of(
                (#[trigger] self.path_patterns@[i])@,
                path,
            )
    }
}

/// Decides which operations and paths are eligible for corruption:
/// a pure predicate over the configuration it was built from.
#[derive(Debug)]
pub struct Filter {
    methods: Vec<Method>,
    path_patterns: Vec<String>,
}

impl Filter {
    /// What this filter admits, as a predicate over operation kind and path.
    pub closed spec fn admits(self, method: Method, path: Seq<char>) -> bool {
        FilterConfig { methods: self.methods, path_patterns: self.path_patterns }.admits(
            method,
            path,
        )
    }

    /// Builds the filter from its configuration. Fails exactly when some
    /// path pattern is malformed; the built filter admits exactly what the
    /// configuration describes.
    pub fn build(conf: FilterConfig) -> (r: Result<Filter, InjectorError>)
        ensures
            r is Ok <==> conf.well_formed(),
            r matches Ok(f) ==> forall|m: Method, p: Seq<char>|
                #[trigger] f.admits(m, p) == conf.admits(m, p),
    {
        let n = conf.path_patterns.len();
        for i in 0..n
            invariant
                n == conf.path_patterns@.len(),
                forall|j: int| 0 <= j < i ==> (#[trigger] conf.path_patterns@[j])@.len() > 0,
        {
            if conf.path_patterns[i].as_str().is_empty() {
                return Err(InjectorError::MalformedPattern);
            }
        }
        Ok(Filter { methods: conf.methods, path_patterns: conf.path_patterns })
    }

    /// The check the engine makes once per hook invocation.
    pub fn filter(&self, method: &Method, path: &str) -> (r: bool)
        ensures
            r == self.admits(*method, path@),
    {
        let mut method_listed = false;
        let nm = self.methods.len();
        for i in 0..nm
            invariant
                nm == self.methods@.len(),
                method_listed == exists|j: int| 0 <= j < i && self.methods@[j] == *method,
        {
            if self.methods[i] == *method {
                method_listed = true;
            }
        }
        if !method_listed {
            return false;
        }
        proof {
            assert(self.methods@.contains(*method));
        }
        let np = self.path_patterns.len();
        for i in 0..np
            invariant
                np == self.path_patterns@.len(),
                self.methods@.contains(*method),
                forall|j: int|
                    0 <= j < i ==> !is_prefix_of((#[trigger] self.path_patterns@[j])@, path@),
        {
            if str_is_prefix(self.path_patterns[i].as_str(), path) {
                proof {
                    let cfg = FilterConfig {
                        methods: self.methods,
                        path_patterns: self.path_patterns,
                    };
                    assert(0 <= i < cfg.path_patterns@.len() && is_prefix_of(
                        (cfg.path_patterns@[i as int])@,
                        path@,
                    ));
                    assert(cfg.admits(*method, path@));
                }
                return true;
            }
        }
        false
    }
}

/// Character-wise prefix test on string slices.
fn str_is_prefix(pattern: &str, path: &str) -> (r: bool)
    ensures
        r == is_prefix_of(pattern@, path@),
{
    let plen = pattern.unicode_len();
    let slen = path.unicode_len();
    if plen > slen {
        return false;
    }
    for i in 0..plen
        invariant
            plen == pattern@.len(),
            slen == path@.len(),
            plen <= slen,
            forall|j: int| 0 <= j < i ==> pattern@[j] == path@[j],
    {
        if pattern.get_char(i) != path.get_char(i) {
            return false;
        }
    }
    true
}

} // verus!
