//! Validated configuration for one estimation run.
//!
//! A run is configured by an ordered mapping of string keys to string values.
//! Every key must belong to the recognized set; boolean flags take an empty
//! value as `true`; numeric keys must parse as their declared type.  Keys left
//! out fall back to the process-wide default command configuration threaded in
//! as [`CmdDefaults`].

use vstd::prelude::*;
use crate::parse::{bool_val, dec_val, is_dec, parse_bool, parse_u32, parse_u64, parse_usize,
    str_eq};

verus! {

/// Defaults drawn from the process-wide default command configuration.
#[derive(Clone, Copy, Debug, PartialEq, Eq)]
pub struct CmdDefaults {
    /// Default memory balloon size in bytes.
    pub balloon_size: usize,
    /// Default log write rate in bytes per second.
    pub log_rate: u64,
}

/// Immutable configuration for one estimation run.
#[derive(Clone, Copy, Debug, PartialEq, Eq)]
pub struct JobConfig {
    /// Run in a reduced-isolation mode.
    pub passive: bool,
    /// Memory balloon size in bytes.
    pub balloon_size: usize,
    /// Target log write rate in bytes per second.
    pub log_rate: u64,
    /// Compute the result locally instead of running the full workload.
    pub use_local_approximation: bool,
    /// Override for the mean hash input size in bytes.
    pub hash_size: Option<usize>,
    /// Override for the memory access chunk size in pages.
    pub chunk_size: Option<usize>,
    /// Override for the maximum request rate.
    pub max_request_rate: Option<u32>,
}

/// A configuration mapping that could not be validated.
#[derive(Debug, Clone, PartialEq, Eq)]
pub enum ParseError {
    /// A key outside the recognized set.
    UnknownProperty { key: String },
    /// A recognized key whose value does not parse as its declared type.
    MalformedValue { key: String, value: String },
}

/// The mathematical shape of a [`ParseError`].
pub enum ParseErrorV {
    UnknownProperty { key: Seq<char> },
    MalformedValue { key: Seq<char>, value: Seq<char> },
}

impl View for ParseError {
    type V = ParseErrorV;

    open spec fn view(&self) -> ParseErrorV {
        match self {
            ParseError::UnknownProperty { key } => ParseErrorV::UnknownProperty { key: key@ },
            ParseError::MalformedValue { key, value } => ParseErrorV::MalformedValue {
                key: key@,
                value: value@,
            },
        }
    }
}

/// What a [`ParseError`] says: the offending key, and for a malformed value
/// the rejected value too.
pub open spec fn err_msg_spec(e: ParseErrorV) -> Seq<char> {
    match e {
        ParseErrorV::UnknownProperty { key } => "unknown property key \""@ + key + "\""@,
        ParseErrorV::MalformedValue { key, value } => "malformed value \""@ + value
            + "\" for property \""@ + key + "\""@,
    }
}

impl ParseError {
    /// Renders the error for display: exactly [`err_msg_spec`].
    pub fn message(&self) -> (r: String)
        ensures
            r@ == err_msg_spec(self@),
    {
        match self {
            ParseError::UnknownProperty { key } => {
                let mut out = String::from_str("unknown property key \"");
                out.append(key.as_str());
                out.append("\"");
                proof {
                    assert(out@ =~= err_msg_spec(self@));
                }
                out
            },
            ParseError::MalformedValue { key, value } => {
                let mut out = String::from_str("malformed value \"");
                out.append(value.as_str());
                out.append("\" for property \"");
                out.append(key.as_str());
                out.append("\"");
                proof {
                    assert(out@ =~= err_msg_spec(self@));
                }
                out
            },
        }
    }
}

/// The configuration all keys default to, before any property is applied.
pub open spec fn default_config(dfl: CmdDefaults) -> JobConfig {
    JobConfig {
        passive: false,
        balloon_size: dfl.balloon_size,
        log_rate: dfl.log_rate,
        use_local_approximation: false,
        hash_size: None,
        chunk_size: None,
        max_request_rate: None,
    }
}

impl JobConfig {
    /// The configuration every run starts from: flags off, overrides unset,
    /// sizes from the default command configuration.
    pub fn default_with(dfl: &CmdDefaults) -> (r: JobConfig)
        ensures
            r == default_config(*dfl),
    {
        JobConfig {
            passive: false,
            balloon_size: dfl.balloon_size,
            log_rate: dfl.log_rate,
            use_local_approximation: false,
            hash_size: None,
            chunk_size: None,
            max_request_rate: None,
        }
    }
}

/// The recognized property keys.
pub open spec fn recognized_key(k: Seq<char>) -> bool {
    k == "passive"@ || k == "balloon"@ || k == "log-bps"@ || k == "fake-cpu-load"@ || k
        == "hash-size"@ || k == "chunk-pages"@ || k == "rps-max"@
}

/// The boolean a flag value denotes: an empty value counts as `true`.
pub open spec fn flag_val(v: Seq<char>) -> Option<bool> {
    if v.len() == 0 {
        Some(true)
    } else {
        bool_val(v)
    }
}

/// Whether the value `v` is well-formed for the recognized key `k`.
pub open spec fn value_ok(k: Seq<char>, v: Seq<char>) -> bool {
    if k == "passive"@ {
        flag_val(v) is Some
    } else if k == "balloon"@ {
        is_dec(v) && dec_val(v) <= usize::MAX
    } else if k == "log-bps"@ {
        is_dec(v) && dec_val(v) <= u64::MAX
    } else if k == "fake-cpu-load"@ {
        flag_val(v) is Some
    } else if k == "hash-size"@ {
        is_dec(v) && dec_val(v) <= usize::MAX
    } else if k == "chunk-pages"@ {
        is_dec(v) && dec_val(v) <= usize::MAX
    } else {
        is_dec(v) && dec_val(v) <= u32::MAX
    }
}

/// Applies one property to `c`: the updated configuration, or the error the
/// property provokes.
pub open spec fn step_prop(c: JobConfig, k: Seq<char>, v: Seq<char>) -> Result<
    JobConfig,
    ParseErrorV,
> {
    if k == "passive"@ {
        match flag_val(v) {
            Some(b) => Ok(JobConfig { passive: b, ..c }),
            None => Err(ParseErrorV::MalformedValue { key: k, value: v }),
        }
    } else if k == "balloon"@ {
        if is_dec(v) && dec_val(v) <= usize::MAX {
            Ok(JobConfig { balloon_size: dec_val(v) as usize, ..c })
        } else {
            Err(ParseErrorV::MalformedValue { key: k, value: v })
        }
    } else if k == "log-bps"@ {
        if is_dec(v) && dec_val(v) <= u64::MAX {
            Ok(JobConfig { log_rate: dec_val(v) as u64, ..c })
        } else {
            Err(ParseErrorV::MalformedValue { key: k, value: v })
        }
    } else if k == "fake-cpu-load"@ {
        match flag_val(v) {
            Some(b) => Ok(JobConfig { use_local_approximation: b, ..c }),
            None => Err(ParseErrorV::MalformedValue { key: k, value: v }),
        }
    } else if k == "hash-size"@ {
        if is_dec(v) && dec_val(v) <= usize::MAX {
            Ok(JobConfig { hash_size: Some(dec_val(v) as usize), ..c })
        } else {
            Err(ParseErrorV::MalformedValue { key: k, value: v })
        }
    } else if k == "chunk-pages"@ {
        if is_dec(v) && dec_val(v) <= usize::MAX {
            Ok(JobConfig { chunk_size: Some(dec_val(v) as usize), ..c })
        } else {
            Err(ParseErrorV::MalformedValue { key: k, value: v })
        }
    } else if k == "rps-max"@ {
        if is_dec(v) && dec_val(v) <= u32::MAX {
            Ok(JobConfig { max_request_rate: Some(dec_val(v) as u32), ..c })
        } else {
            Err(ParseErrorV::MalformedValue { key: k, value: v })
        }
    } else {
        Err(ParseErrorV::UnknownProperty { key: k })
    }
}

/// Applies the properties in order, stopping at the first error.
pub open spec fn fold_props(c: JobConfig, props: Seq<(String, String)>) -> Result<
    JobConfig,
    ParseErrorV,
>
    decreases props.len(),
{
    if props.len() == 0 {
        Ok(c)
    } else {
        match step_prop(c, props[0].0@, props[0].1@) {
            Ok(c2) => fold_props(c2, props.skip(1)),
            Err(e) => Err(e),
        }
    }
}

fn parse_flag(v: &str) -> (r: Option<bool>)
    ensures
        r == flag_val(v@),
{
    if v.unicode_len() == 0 {
        Some(true)
    } else {
        parse_bool(v)
    }
}

/// The estimation job's front end: validates a property mapping into a
/// [`JobConfig`].
pub struct HashdParamsBench {}

impl HashdParamsBench {
    /// Validates `props` against `dfl`: the folded configuration, or the first
    /// error an entry provokes, exactly as [`fold_props`] reads the mapping.
    pub fn parse(&self, props: &Vec<(String, String)>, dfl: &CmdDefaults) -> (r: Result<
        JobConfig,
        ParseError,
    >)
        ensures
            match r {
                Ok(c) => fold_props(default_config(*dfl), props@) == Ok::<
                    JobConfig,
                    ParseErrorV,
                >(c),
                Err(e) => fold_props(default_config(*dfl), props@) == Err::<
                    JobConfig,
                    ParseErrorV,
                >(e@),
            },
    {
        let mut cur = JobConfig::default_with(dfl);
        let n = props.len();
        let mut i: usize = 0;
        proof {
            assert(props@.skip(0) =~= props@);
        }
        while i < n
            invariant
                n == props@.len(),
                i <= n,
                fold_props(default_config(*dfl), props@) == fold_props(
                    cur,
                    props@.skip(i as int),
                ),
            decreases n - i,
        {
            let p = &props[i];
            let k = p.0.as_str();
            let v = p.1.as_str();
            let ghost prev = cur;
            let ghost rest = props@.skip(i as int);
            proof {
                assert(rest[0] == props@[i as int]);
                assert(rest.skip(1) =~= props@.skip(i as int + 1));
            }
            if str_eq(k, "passive") {
                match parse_flag(v) {
                    Some(b) => {
                        cur = JobConfig { passive: b, ..cur };
                    },
                    None => {
                        return Err(
                            ParseError::MalformedValue { key: p.0.clone(), value: p.1.clone() },
                        );
                    },
                }
            } else if str_eq(k, "balloon") {
                match parse_usize(v) {
                    Some(x) => {
                        cur = JobConfig { balloon_size: x, ..cur };
                    },
                    None => {
                        return Err(
                            ParseError::MalformedValue { key: p.0.clone(), value: p.1.clone() },
                        );
                    },
                }
            } else if str_eq(k, "log-bps") {
                match parse_u64(v) {
                    Some(x) => {
                        cur = JobConfig { log_rate: x, ..cur };
                    },
                    None => {
                        return Err(
                            ParseError::MalformedValue { key: p.0.clone(), value: p.1.clone() },
                        );
                    },
                }
            } else if str_eq(k, "fake-cpu-load") {
                match parse_flag(v) {
                    Some(b) => {
                        cur = JobConfig { use_local_approximation: b, ..cur };
                    },
                    None => {
                        return Err(
                            ParseError::MalformedValue { key: p.0.clone(), value: p.1.clone() },
                        );
                    },
                }
            } else if str_eq(k, "hash-size") {
                match parse_usize(v) {
                    Some(x) => {
                        cur = JobConfig { hash_size: Some(x), ..cur };
                    },
                    None => {
                        return Err(
                            ParseError::MalformedValue { key: p.0.clone(), value: p.1.clone() },
                        );
                    },
                }
            } else if str_eq(k, "chunk-pages") {
                match parse_usize(v) {
                    Some(x) => {
                        cur = JobConfig { chunk_size: Some(x), ..cur };
                    },
                    None => {
                        return Err(
                            ParseError::MalformedValue { key: p.0.clone(), value: p.1.clone() },
                        );
                    },
                }
            } else if str_eq(k, "rps-max") {
                match parse_u32(v) {
                    Some(x) => {
                        cur = JobConfig { max_request_rate: Some(x), ..cur };
                    },
                    None => {
                        return Err(
                            ParseError::MalformedValue { key: p.0.clone(), value: p.1.clone() },
                        );
                    },
                }
            } else {
                return Err(ParseError::UnknownProperty { key: p.0.clone() });
            }
            proof {
                assert(step_prop(prev, rest[0].0@, rest[0].1@) == Ok::<JobConfig, ParseErrorV>(
                    cur,
                ));
            }
            i = i + 1;
        }
        proof {
            assert(props@.skip(n as int) =~= Seq::<(String, String)>::empty());
        }
        Ok(cur)
    }
}

/// A well-formed value for a recognized key is accepted whatever the current
/// configuration is.
proof fn lemma_step_ok(c: JobConfig, k: Seq<char>, v: Seq<char>)
    requires
        recognized_key(k),
        value_ok(k, v),
    ensures
        step_prop(c, k, v) is Ok,
{
}

/// A mapping holding a key outside the recognized set never parses: folding
/// the properties from any starting configuration ends in an error.
pub proof fn lemma_unknown_key_rejected(c: JobConfig, props: Seq<(String, String)>, i: int)
    requires
        0 <= i < props.len(),
        !recognized_key(props[i].0@),
    ensures
        fold_props(c, props) is Err,
    decreases props.len(),
{
    if i == 0 {
    } else {
        match step_prop(c, props[0].0@, props[0].1@) {
            Ok(c2) => {
                assert(props.skip(1)[i - 1] == props[i]);
                lemma_unknown_key_rejected(c2, props.skip(1), i - 1);
            },
            Err(e) => {},
        }
    }
}

/// Where every entry before the first unrecognized key is well-formed, the
/// parse fails with `UnknownProperty` naming exactly that key.
pub proof fn lemma_first_unknown_key_named(c: JobConfig, props: Seq<(String, String)>, i: int)
    requires
        0 <= i < props.len(),
        !recognized_key(props[i].0@),
        forall|j: int|
            0 <= j < i ==> recognized_key(#[trigger] props[j].0@) && value_ok(
                props[j].0@,
                props[j].1@,
            ),
    ensures
        fold_props(c, props) == Err::<JobConfig, ParseErrorV>(
            ParseErrorV::UnknownProperty { key: props[i].0@ },
        ),
    decreases props.len(),
{
    if i == 0 {
    } else {
        match step_prop(c, props[0].0@, props[0].1@) {
            Ok(c2) => {
                assert(forall|j: int|
                    0 <= j < i - 1 ==> #[trigger] props.skip(1)[j] == props[j + 1]);
                lemma_first_unknown_key_named(c2, props.skip(1), i - 1);
                assert(props.skip(1)[i - 1] == props[i]);
            },
            Err(e) => {
                lemma_step_ok(c, props[0].0@, props[0].1@);
                assert(false);
            },
        }
    }
}

} // verus!
