//! The engine's configuration and its path filters.

use vstd::prelude::*;
use crate::remote::texts;

verus! {

/// Whether `glob::Pattern::new` accepts the text `pattern`.
///
/// This and `glob_matches` stand for the `glob` crate as it is built for the
/// host: built for Windows, it takes `\` for a path separator beside `/`.
pub uninterp spec fn glob_compiles(pattern: Seq<char>) -> bool;

/// What `glob::Pattern::matches_path` answers for `path`, asked of the
/// pattern that `glob::Pattern::new` compiles from the text `pattern`.
pub uninterp spec fn glob_matches(pattern: Seq<char>, path: Seq<char>) -> bool;

/// Calls `glob::Pattern::new` and says whether it accepted the text.
#[verifier::external_body]
fn pattern_compiles(pattern: &str) -> (accepted: bool)
    ensures
        accepted == glob_compiles(pattern@),
{
    glob::Pattern::new(pattern).is_ok()
}

/// Compiles the text with `glob::Pattern::new` and asks
/// `glob::Pattern::matches_path` of the result whether `path` matches. There
/// is no answer for a text that does not compile.
#[verifier::external_body]
fn pattern_matches(pattern: &str, path: &str) -> (matched: Option<bool>)
    ensures
        matched == if glob_compiles(pattern@) {
            Some(glob_matches(pattern@, path@))
        } else {
            None
        },
{
    match glob::Pattern::new(pattern) {
        Ok(compiled) => Some(compiled.matches_path(std::path::Path::new(path))),
        Err(_) => None,
    }
}

/// Why a configuration was turned down.
#[derive(Clone, Copy, Debug, PartialEq, Eq, Structural)]
pub enum ConfigError {
    /// The include pattern at this position is no valid glob.
    InvalidInclude(usize),
    /// The exclude pattern at this position is no valid glob.
    InvalidExclude(usize),
}

/// Where to synchronize, and which paths take part.
pub struct Config {
    includes: Vec<String>,
    excludes: Vec<String>,
    root_dir: String,
}

/// What a `Config` holds, as mathematical values.
pub struct ConfigView {
    pub includes: Seq<Seq<char>>,
    pub excludes: Seq<Seq<char>>,
    pub root_dir: Seq<char>,
}

/// Whether every one of `patterns` is a valid glob.
pub open spec fn all_compile(patterns: Seq<Seq<char>>) -> bool {
    forall|i: int| 0 <= i < patterns.len() ==> glob_compiles(#[trigger] patterns[i])
}

/// Whether `path` matches one of `patterns`.
pub open spec fn any_matches(patterns: Seq<Seq<char>>, path: Seq<char>) -> bool {
    exists|i: int| 0 <= i < patterns.len() && glob_matches(#[trigger] patterns[i], path)
}

/// The filter's rule. With include patterns given, a path is ignored unless
/// it matches one of them, and the exclude patterns are not asked. With none
/// given, a path is ignored when it matches an exclude pattern.
pub open spec fn ignored(include_given: bool, include_matched: bool, exclude_matched: bool) -> bool {
    if include_given {
        !include_matched
    } else {
        exclude_matched
    }
}

/// Whether the filters of `config` drop `path`.
pub open spec fn ignores(config: ConfigView, path: Seq<char>) -> bool {
    ignored(
        config.includes.len() > 0,
        any_matches(config.includes, path),
        any_matches(config.excludes, path),
    )
}

/// Where include patterns are given, the exclude patterns have no say: two
/// configurations with the same include patterns, at least one, ignore the
/// same paths.
pub proof fn includes_silence_excludes(first: ConfigView, second: ConfigView, path: Seq<char>)
    requires
        first.includes == second.includes,
        first.includes.len() > 0,
    ensures
        ignores(first, path) == ignores(second, path),
        ignores(first, path) == !any_matches(first.includes, path),
{
}

/// Without include patterns, a path is ignored exactly when an exclude
/// pattern matches it.
pub proof fn excludes_decide_without_includes(config: ConfigView, path: Seq<char>)
    requires
        config.includes.len() == 0,
    ensures
        ignores(config, path) == any_matches(config.excludes, path),
{
}

/// Applies the filter's rule to what the patterns answered.
pub fn verdict(include_given: bool, include_matched: bool, exclude_matched: bool) -> (drop: bool)
    ensures
        drop == ignored(include_given, include_matched, exclude_matched),
{
    if include_given {
        !include_matched
    } else {
        exclude_matched
    }
}

/// The position of the first of `patterns` that is no valid glob.
fn first_invalid(patterns: &Vec<String>) -> (position: Option<usize>)
    ensures
        match position {
            Some(i) => {
                &&& i < patterns.len()
                &&& !glob_compiles(patterns@[i as int]@)
                &&& all_compile(texts(patterns@).take(i as int))
            },
            None => all_compile(texts(patterns@)),
        },
{
    let mut i: usize = 0;
    while i < patterns.len()
        invariant
            i <= patterns.len(),
            all_compile(texts(patterns@).take(i as int)),
        decreases patterns.len() - i,
    {
        if !pattern_compiles(patterns[i].as_str()) {
            return Some(i);
        }
        i += 1;
    }
    assert(texts(patterns@).take(patterns.len() as int) == texts(patterns@));
    None
}

/// Whether `path` matches one of `patterns`.
fn matches_any(patterns: &Vec<String>, path: &str) -> (matched: bool)
    requires
        all_compile(texts(patterns@)),
    ensures
        matched == any_matches(texts(patterns@), path@),
{
    let mut i: usize = 0;
    while i < patterns.len()
        invariant
            i <= patterns.len(),
            all_compile(texts(patterns@)),
            forall|k: int| 0 <= k < i ==> !glob_matches(#[trigger] texts(patterns@)[k], path@),
        decreases patterns.len() - i,
    {
        assert(glob_compiles(texts(patterns@)[i as int]));
        match pattern_matches(patterns[i].as_str(), path) {
            Some(true) => {
                return true;
            },
            _ => {},
        }
        i += 1;
    }
    false
}

impl View for Config {
    type V = ConfigView;

    closed spec fn view(&self) -> ConfigView {
        ConfigView {
            includes: texts(self.includes@),
            excludes: texts(self.excludes@),
            root_dir: self.root_dir@,
        }
    }
}

impl Config {
    /// Every pattern is a valid glob.
    #[verifier::type_invariant]
    spec fn valid(self) -> bool {
        all_compile(texts(self.includes@)) && all_compile(texts(self.excludes@))
    }

    /// Makes a configuration of the given patterns and root, unless one of
    /// the patterns is no valid glob: then the first such pattern is named,
    /// the include patterns being looked at before the exclude patterns.
    pub fn new(includes: Vec<String>, excludes: Vec<String>, root_dir: String) -> (made: Result<
        Config,
        ConfigError,
    >)
        ensures
            match made {
                Ok(config) => {
                    &&& config@ == (ConfigView {
                        includes: texts(includes@),
                        excludes: texts(excludes@),
                        root_dir: root_dir@,
                    })
                    &&& all_compile(texts(includes@))
                    &&& all_compile(texts(excludes@))
                },
                Err(ConfigError::InvalidInclude(i)) => {
                    &&& i < includes.len()
                    &&& !glob_compiles(includes@[i as int]@)
                    &&& all_compile(texts(includes@).take(i as int))
                },
                Err(ConfigError::InvalidExclude(i)) => {
                    &&& all_compile(texts(includes@))
                    &&& i < excludes.len()
                    &&& !glob_compiles(excludes@[i as int]@)
                    &&& all_compile(texts(excludes@).take(i as int))
                },
            },
    {
        match first_invalid(&includes) {
            Some(i) => Err(ConfigError::InvalidInclude(i)),
            None => match first_invalid(&excludes) {
                Some(i) => Err(ConfigError::InvalidExclude(i)),
                None => Ok(Config { includes, excludes, root_dir }),
            },
        }
    }

    /// The include patterns.
    pub fn includes(&self) -> (patterns: &Vec<String>)
        ensures
            texts(patterns@) == self@.includes,
    {
        &self.includes
    }

    /// The exclude patterns.
    pub fn excludes(&self) -> (patterns: &Vec<String>)
        ensures
            texts(patterns@) == self@.excludes,
    {
        &self.excludes
    }

    /// The directory that mirrors the remote store.
    pub fn root_dir(&self) -> (root_dir: &String)
        ensures
            root_dir@ == self@.root_dir,
    {
        &self.root_dir
    }

    /// Whether the filters drop the path `path`, given below the
    /// synchronization root.
    pub fn should_be_ignored(&self, path: &str) -> (drop: bool)
        ensures
            drop == ignores(self@, path@),
    {
        proof {
            use_type_invariant(self);
        }
        if !self.includes.is_empty() {
            verdict(true, matches_any(&self.includes, path), false)
        } else {
            verdict(false, false, matches_any(&self.excludes, path))
        }
    }
}

} // verus!
