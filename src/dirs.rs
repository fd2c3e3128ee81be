//! Where runs, images and configuration live on the host, and how a run
//! is named.
use vstd::prelude::*;
use crate::error::VmError;
use crate::text::{decimal, push_decimal, push_str};
use crate::vm_steps::opt_view;

verus! {

/// `base` joined with the relative path `name`.
pub open spec fn joined(base: Seq<char>, name: Seq<char>) -> Seq<char> {
    if base.len() > 0 && base.last() == '/' {
        base + name
    } else {
        base + "/"@ + name
    }
}

/// Join the relative path `name` onto `base`.
pub fn join_path(base: &str, name: &str) -> (r: String)
    ensures
        r@ == joined(base@, name@),
{
    let n = base.unicode_len();
    let mut s = String::from_str(base);
    if !(n > 0 && base.get_char(n - 1) == '/') {
        push_str(&mut s, "/");
    }
    push_str(&mut s, name);
    s
}

/// Relies on `dirs::cache_dir`: the user's cache directory, when the
/// platform has one.
#[verifier::external_body]
fn os_cache_dir() -> (r: Option<String>) {
    dirs::cache_dir().map(|p| p.to_string_lossy().into_owned())
}

/// Relies on `dirs::state_dir`: the user's state directory, when the
/// platform has one.
#[verifier::external_body]
fn os_state_dir() -> (r: Option<String>) {
    dirs::state_dir().map(|p| p.to_string_lossy().into_owned())
}

/// Relies on `dirs::data_local_dir`: the user's local data directory, when
/// the platform has one.
#[verifier::external_body]
fn os_data_local_dir() -> (r: Option<String>) {
    dirs::data_local_dir().map(|p| p.to_string_lossy().into_owned())
}

/// Relies on `dirs::config_dir`: the user's configuration directory, when
/// the platform has one.
#[verifier::external_body]
fn os_config_dir() -> (r: Option<String>) {
    dirs::config_dir().map(|p| p.to_string_lossy().into_owned())
}

/// Whether `s` is made of lower-case ASCII letters and `-` only.
pub open spec fn petname_chars(s: Seq<char>) -> bool {
    forall|i: int| 0 <= i < s.len() ==> ('a' <= #[trigger] s[i] && s[i] <= 'z') || s[i] == '-'
}

/// Relies on `petname::petname`: a random name of two words from the
/// built-in lists (lower-case letters only) joined by the separator, or
/// nothing when that name would be empty.
#[verifier::external_body]
fn random_petname() -> (r: Option<String>)
    ensures
        r matches Some(p) ==> p@.len() > 0 && petname_chars(p@),
{
    petname::petname(2, "-")
}

/// Relies on `rand::random_range`: a uniformly drawn number in the half-open
/// range, which is not empty.
#[verifier::external_body]
fn random_suffix() -> (r: u16)
    ensures
        1000 <= r < 9999,
{
    rand::random_range(1000u16..9999u16)
}

/// Relies on `rand::random`: a uniformly drawn number.
#[verifier::external_body]
fn random_u32() -> (r: u32) {
    rand::random::<u32>()
}

/// The cache, state and configuration directories of the tool.
#[derive(Debug, Clone, PartialEq, Eq)]
pub struct IntarDirs {
    pub cache: String,
    pub state: String,
    pub config: String,
}

/// `<cache>/intar`, `<state or local data>/intar`, `<config>/intar`, from the
/// platform's directories.
pub open spec fn dirs_from(
    cache: Option<Seq<char>>,
    state: Option<Seq<char>>,
    config: Option<Seq<char>>,
) -> Option<(Seq<char>, Seq<char>, Seq<char>)> {
    match (cache, state, config) {
        (Some(c), Some(s), Some(g)) => Some(
            (joined(c, "intar"@), joined(s, "intar"@), joined(g, "intar"@)),
        ),
        _ => None,
    }
}

/// The run name made of a two-word petname and a four-digit suffix, or,
/// without a petname, `run-` and a random number.
pub open spec fn run_name_text(petname: Option<Seq<char>>, suffix: nat, fallback: nat) -> Seq<char> {
    match petname {
        Some(p) => p + "-"@ + decimal(suffix),
        None => "run-"@ + decimal(fallback),
    }
}

/// Every run name holds a `-`, so it is never empty.
pub proof fn lemma_run_name_has_dash(petname: Option<Seq<char>>, suffix: nat, fallback: nat)
    ensures
        run_name_text(petname, suffix, fallback).len() > 0,
        run_name_text(petname, suffix, fallback).contains('-'),
{
    reveal_strlit("-");
    reveal_strlit("run-");
    let t = run_name_text(petname, suffix, fallback);
    match petname {
        Some(p) => {
            assert(t[p.len() as int] == '-');
        },
        None => {
            assert(t[3] == '-');
        },
    }
}

proof fn lemma_decimal_digits(n: nat)
    ensures
        forall|i: int| 0 <= i < decimal(n).len() ==> '0' <= #[trigger] decimal(n)[i] && decimal(n)[i] <= '9',
    decreases n,
{
    if n >= 10 {
        lemma_decimal_digits(n / 10);
        let d = decimal(n / 10);
        assert forall|i: int| 0 <= i < decimal(n).len() implies '0' <= #[trigger] decimal(n)[i]
            && decimal(n)[i] <= '9' by {
            if i < d.len() {
                assert(decimal(n)[i] == d[i]);
            }
        }
    }
}

/// A run name whose petname part is letters and dashes holds no `/`.
pub proof fn lemma_run_name_no_slash(petname: Option<Seq<char>>, suffix: nat, fallback: nat)
    requires
        petname matches Some(p) ==> petname_chars(p),
    ensures
        !run_name_text(petname, suffix, fallback).contains('/'),
{
    reveal_strlit("-");
    reveal_strlit("run-");
    let t = run_name_text(petname, suffix, fallback);
    match petname {
        Some(p) => {
            lemma_decimal_digits(suffix);
            assert forall|i: int| 0 <= i < t.len() implies t[i] != '/' by {
                if i < p.len() {
                    assert(t[i] == p[i]);
                } else if i > p.len() {
                    assert(t[i] == decimal(suffix)[i - p.len() - 1]);
                }
            }
        },
        None => {
            lemma_decimal_digits(fallback);
            assert forall|i: int| 0 <= i < t.len() implies t[i] != '/' by {
                if i >= 4 {
                    assert(t[i] == decimal(fallback)[i - 4]);
                }
            }
        },
    }
}

/// Compose a run name from its drawn parts.
pub fn run_name_from(petname: Option<String>, suffix: u16, fallback: u32) -> (r: String)
    ensures
        r@ == run_name_text(
            match petname {
                Some(p) => Some(p@),
                None => None,
            },
            suffix as nat,
            fallback as nat,
        ),
{
    match petname {
        Some(p) => {
            let mut s = p;
            push_str(&mut s, "-");
            push_decimal(&mut s, suffix as u64);
            s
        },
        None => {
            let mut s = String::from_str("run-");
            push_decimal(&mut s, fallback as u64);
            s
        },
    }
}

/// A fresh, human-friendly run name: never empty, always holding a `-`, and
/// never a `/`, so it is a single path component.
pub fn generate_run_name() -> (r: String)
    ensures
        exists|p: Option<Seq<char>>, s: nat, f: nat|
            1000 <= s < 9999 && r@ == run_name_text(p, s, f) && (p matches Some(q)
                ==> petname_chars(q)),
        r@.len() > 0,
        r@.contains('-'),
        !r@.contains('/'),
{
    let suffix = random_suffix();
    let fallback = random_u32();
    let pet = random_petname();
    let ghost pv = opt_view(pet);
    let r = run_name_from(pet, suffix, fallback);
    proof {
        lemma_run_name_has_dash(pv, suffix as nat, fallback as nat);
        lemma_run_name_no_slash(pv, suffix as nat, fallback as nat);
    }
    r
}

impl IntarDirs {
    /// Locate the tool's directories under the platform's ones; the state
    /// directory falls back to the local data directory.
    pub fn new() -> (r: Result<Self, VmError>)
        ensures
            r is Err ==> r matches Err(VmError::Directory(_)),
            r matches Ok(d) ==> exists|c: Seq<char>, s: Seq<char>, g: Seq<char>|
                dirs_from(Some(c), Some(s), Some(g)) == Some((d.cache@, d.state@, d.config@)),
    {
        let cache = match os_cache_dir() {
            Some(c) => c,
            None => {
                return Err(VmError::Directory(String::from_str("cache directory not found")));
            },
        };
        let state = match os_state_dir() {
            Some(s) => s,
            None => match os_data_local_dir() {
                Some(s) => s,
                None => {
                    return Err(VmError::Directory(String::from_str("state directory not found")));
                },
            },
        };
        let config = match os_config_dir() {
            Some(c) => c,
            None => {
                return Err(VmError::Directory(String::from_str("config directory not found")));
            },
        };
        let d = IntarDirs {
            cache: join_path(cache.as_str(), "intar"),
            state: join_path(state.as_str(), "intar"),
            config: join_path(config.as_str(), "intar"),
        };
        assert(dirs_from(Some(cache@), Some(state@), Some(config@)) == Some(
            (d.cache@, d.state@, d.config@),
        ));
        Ok(d)
    }

    pub fn images_dir(&self) -> (r: String)
        ensures
            r@ == joined(self.cache@, "images"@),
    {
        join_path(self.cache.as_str(), "images")
    }

    pub fn runs_dir(&self) -> (r: String)
        ensures
            r@ == joined(self.state@, "runs"@),
    {
        join_path(self.state.as_str(), "runs")
    }

    /// A fresh run directory directly under `runs_dir`, named by
    /// `generate_run_name`: one non-empty path component holding a `-`.
    pub fn new_run_dir(&self) -> (r: String)
        ensures
            exists|name: Seq<char>|
                r@ == joined(joined(self.state@, "runs"@), name) && name.len() > 0 && name.contains(
                    '-',
                ) && !name.contains('/') && exists|p: Option<Seq<char>>, s: nat, f: nat|
                    1000 <= s < 9999 && name == run_name_text(p, s, f),
    {
        let runs = self.runs_dir();
        let name = generate_run_name();
        join_path(runs.as_str(), name.as_str())
    }
}

} // verus!
