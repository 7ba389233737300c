//! The configuration that the dispatcher is started with.

use vstd::prelude::*;
use vstd::string::*;
use crate::search::{first_index, lemma_first_index_absent, lemma_first_index_found};

verus! {

/// A configured build intent: what to run when a branch of a repository
/// reports success.
#[derive(Clone, Debug, PartialEq)]
pub struct Target {
    pub repository: String,
    pub branch: String,
    pub directory: String,
    pub steps: Vec<String>,
}

/// A target as plain sequences of characters.
pub struct TargetView {
    pub repository: Seq<char>,
    pub branch: Seq<char>,
    pub directory: Seq<char>,
    pub steps: Seq<Seq<char>>,
}

/// The texts that a vector of strings holds, in order.
pub open spec fn texts(v: Seq<String>) -> Seq<Seq<char>> {
    v.map_values(|s: String| s@)
}

impl View for Target {
    type V = TargetView;

    open spec fn view(&self) -> TargetView {
        TargetView {
            repository: self.repository@,
            branch: self.branch@,
            directory: self.directory@,
            steps: texts(self.steps@),
        }
    }
}

/// The targets that a vector holds, in order.
pub open spec fn target_views(v: Seq<Target>) -> Seq<TargetView> {
    v.map_values(|t: Target| t@)
}

/// A copy of a vector of strings, text for text.
pub fn copy_texts(v: &Vec<String>) -> (r: Vec<String>)
    ensures
        texts(r@) == texts(v@),
{
    let mut out: Vec<String> = Vec::new();
    let mut i: usize = 0;
    while i < v.len()
        invariant
            i <= v.len(),
            out.len() == i,
            forall|k: int| 0 <= k < i ==> out[k]@ == v[k]@,
        decreases v.len() - i,
    {
        out.push(v[i].clone());
        i += 1;
    }
    out
}

impl Target {
    /// A copy of this target, field for field.
    pub fn duplicate(&self) -> (r: Target)
        ensures
            r@ == self@,
    {
        Target {
            repository: self.repository.clone(),
            branch: self.branch.clone(),
            directory: self.directory.clone(),
            steps: copy_texts(&self.steps),
        }
    }
}

/// The whole configuration: where to listen, where to log, what to build.
#[derive(Clone, Debug, PartialEq)]
pub struct Config {
    pub port: u16,
    pub host: String,
    pub log: String,
    pub targets: Vec<Target>,
}

/// The flag that introduces the path of the configuration file.
pub open spec fn config_flag() -> Seq<char> {
    "--config"@
}

/// Whether an argument is the configuration flag.
pub open spec fn is_config_flag() -> spec_fn(Seq<char>) -> bool {
    |a: Seq<char>| a == config_flag()
}

/// What the command line yields: the argument after the first `--config`,
/// or the reason why there is none to take.
pub open spec fn spec_parse_args(args: Seq<Seq<char>>) -> Result<Seq<char>, Seq<char>> {
    match first_index(args, is_config_flag()) {
        None => Err("No config parameter provided"@),
        Some(p) => if p + 1 >= args.len() {
            Err("Path not provided for --config"@)
        } else if args.len() > 3 {
            Err("Too many arguments provided"@)
        } else {
            Ok(args[p + 1])
        },
    }
}

/// A parse result as plain sequences of characters.
pub open spec fn parsed_view(r: Result<String, &str>) -> Result<Seq<char>, Seq<char>> {
    match r {
        Ok(path) => Ok(path@),
        Err(reason) => Err(reason@),
    }
}

/// Finds the path of the configuration file on the command line.
pub fn parse_args(args: Vec<String>) -> (r: Result<String, &'static str>)
    ensures
        parsed_view(r) == spec_parse_args(texts(args@)),
{
    let flag = String::from_str("--config");
    let ghost words = texts(args@);
    let mut i: usize = 0;
    while i < args.len()
        invariant
            i <= args.len(),
            flag@ == config_flag(),
            words == texts(args@),
            forall|j: int| 0 <= j < i ==> !#[trigger] is_config_flag()(words[j]),
        decreases args.len() - i,
    {
        if args[i] == flag {
            proof {
                lemma_first_index_found(words, is_config_flag(), i as int);
            }
            if i + 1 >= args.len() {
                return Err("Path not provided for --config");
            }
            if args.len() > 3 {
                return Err("Too many arguments provided");
            }
            return Ok(args[i + 1].clone());
        }
        i += 1;
    }
    proof {
        lemma_first_index_absent(words, is_config_flag());
    }
    Err("No config parameter provided")
}

} // verus!
