//! The requested block range: find the module inside the package, then read
//! the range text. The range is `start:stop`, where `start` is empty (the
//! module's initial block), `+N` (relative to the initial block) or an
//! absolute number, and `stop` is empty or `-` (unbounded, encoded as zero),
//! `+N` (relative to start) or an absolute number.

use vstd::prelude::*;
use crate::text::find_char;
use crate::text::idx_of_first;
use crate::text::str_eq;
use crate::text::strip_leading;
use crate::text::strip_leading_chars;
use crate::textnum::all_dec_digits;
use crate::textnum::dec_value;
use crate::textnum::i64_dec_result;
use crate::textnum::parse_i64_dec;
use crate::textnum::parse_u64_dec;

verus! {

/// One module of the package descriptor, as the range computation reads it.
#[derive(Debug, Clone, PartialEq, Eq)]
pub struct ModuleInfo {
    pub name: String,
    pub initial_block: u64,
}

/// Why the range text or the module reference was rejected; configuration
/// errors fail fast, before any connection is attempted.
#[derive(Debug, Clone, PartialEq, Eq)]
pub enum RangeError {
    ModuleNotFound,
    InvalidStart,
    InvalidStop,
}

/// The initial block of the first module carrying this name, if any.
pub open spec fn module_lookup(mods: Seq<ModuleInfo>, name: Seq<char>) -> Option<u64>
    decreases mods.len(),
{
    if mods.len() == 0 {
        None
    } else if mods[0].name@ == name {
        Some(mods[0].initial_block)
    } else {
        module_lookup(mods.skip(1), name)
    }
}

proof fn lemma_module_lookup_at(mods: Seq<ModuleInfo>, name: Seq<char>, k: int)
    requires
        0 <= k <= mods.len(),
        forall|j: int| 0 <= j < k ==> (#[trigger] mods[j]).name@ != name,
        k < mods.len() ==> mods[k].name@ == name,
    ensures
        module_lookup(mods, name) == if k < mods.len() {
            Some(mods[k].initial_block)
        } else {
            None::<u64>
        },
    decreases k,
{
    if mods.len() == 0 {
    } else if k == 0 {
    } else {
        lemma_module_lookup_at(mods.skip(1), name, k - 1);
    }
}

/// The start block that the range prefix denotes, given the module's initial
/// block.
pub open spec fn start_spec(init: u64, prefix: Seq<char>) -> Result<i64, RangeError> {
    if prefix.len() == 0 {
        Ok(init as i64)
    } else if prefix[0] == '+' {
        let t = strip_leading(prefix, '+');
        if t.len() > 0 && all_dec_digits(t) && dec_value(t) <= u64::MAX {
            if init + dec_value(t) <= u64::MAX {
                Ok((init + dec_value(t)) as u64 as i64)
            } else {
                Err(RangeError::InvalidStart)
            }
        } else {
            Err(RangeError::InvalidStart)
        }
    } else {
        match i64_dec_result(prefix) {
            Some(v) => Ok(v as i64),
            None => Err(RangeError::InvalidStart),
        }
    }
}

/// The stop block that the range suffix denotes, given the start block; zero
/// means unbounded.
pub open spec fn stop_spec(start: i64, suffix: Seq<char>) -> Result<u64, RangeError> {
    if suffix.len() == 0 || suffix == seq!['-'] {
        Ok(0u64)
    } else if suffix[0] == '+' {
        let t = strip_leading(suffix, '+');
        if t.len() > 0 && all_dec_digits(t) && dec_value(t) <= u64::MAX {
            if (start as u64) + dec_value(t) <= u64::MAX {
                Ok(((start as u64) + dec_value(t)) as u64)
            } else {
                Err(RangeError::InvalidStop)
            }
        } else {
            Err(RangeError::InvalidStop)
        }
    } else {
        if all_dec_digits(suffix) && dec_value(suffix) <= u64::MAX {
            Ok(dec_value(suffix) as u64)
        } else {
            Err(RangeError::InvalidStop)
        }
    }
}

/// The whole range that the input text denotes: the part before the first
/// `':'` is the start, the part after it the stop; without a `':'` the whole
/// input is the stop.
pub open spec fn block_range_spec(init: u64, input: Seq<char>) -> Result<(i64, u64), RangeError> {
    let k = idx_of_first(input, ':');
    let prefix = if k < input.len() {
        input.take(k)
    } else {
        Seq::<char>::empty()
    };
    let suffix = if k < input.len() {
        input.skip(k + 1)
    } else {
        input
    };
    match start_spec(init, prefix) {
        Ok(start) => match stop_spec(start, suffix) {
            Ok(stop) => Ok((start, stop)),
            Err(e) => Err(e),
        },
        Err(e) => Err(e),
    }
}

fn parse_start(init: u64, prefix: &str) -> (r: Result<i64, RangeError>)
    ensures
        r == start_spec(init, prefix@),
{
    let n = prefix.unicode_len();
    if n == 0 {
        return Ok(init as i64);
    }
    if prefix.get_char(0) == '+' {
        let t = strip_leading_chars(prefix, '+');
        match parse_u64_dec(t) {
            Some(count) => {
                if count <= u64::MAX - init {
                    Ok((init + count) as i64)
                } else {
                    Err(RangeError::InvalidStart)
                }
            },
            None => Err(RangeError::InvalidStart),
        }
    } else {
        match parse_i64_dec(prefix) {
            Some(v) => Ok(v),
            None => Err(RangeError::InvalidStart),
        }
    }
}

fn parse_stop(start: i64, suffix: &str) -> (r: Result<u64, RangeError>)
    ensures
        r == stop_spec(start, suffix@),
{
    let n = suffix.unicode_len();
    let is_dash = str_eq(suffix, "-");
    proof {
        reveal_strlit("-");
        assert("-"@ =~= seq!['-']);
    }
    if n == 0 || is_dash {
        return Ok(0);
    }
    if suffix.get_char(0) == '+' {
        let t = strip_leading_chars(suffix, '+');
        match parse_u64_dec(t) {
            Some(count) => {
                let base = start as u64;
                if count <= u64::MAX - base {
                    Ok(base + count)
                } else {
                    Err(RangeError::InvalidStop)
                }
            },
            None => Err(RangeError::InvalidStop),
        }
    } else {
        match parse_u64_dec(suffix) {
            Some(v) => Ok(v),
            None => Err(RangeError::InvalidStop),
        }
    }
}

/// The initial block of the first module carrying `module_name`.
fn find_module(modules: &Vec<ModuleInfo>, module_name: &str) -> (r: Option<u64>)
    ensures
        r == module_lookup(modules@, module_name@),
{
    let mut i: usize = 0;
    while i < modules.len()
        invariant
            i <= modules@.len(),
            forall|j: int| 0 <= j < i ==> (#[trigger] modules@[j]).name@ != module_name@,
        decreases modules@.len() - i,
    {
        if str_eq(modules[i].name.as_str(), module_name) {
            proof {
                lemma_module_lookup_at(modules@, module_name@, i as int);
            }
            return Some(modules[i].initial_block);
        }
        i = i + 1;
    }
    proof {
        lemma_module_lookup_at(modules@, module_name@, modules@.len() as int);
    }
    None
}

/// Compute the requested block range for `module_name` from the package's
/// module list and the configured range text.
pub fn read_block_range(modules: &Vec<ModuleInfo>, module_name: &str, input: &str) -> (r: Result<
    (i64, u64),
    RangeError,
>)
    ensures
        r == match module_lookup(modules@, module_name@) {
            Some(init) => block_range_spec(init, input@),
            None => Err::<(i64, u64), RangeError>(RangeError::ModuleNotFound),
        },
{
    let init = match find_module(modules, module_name) {
        Some(v) => v,
        None => {
            return Err(RangeError::ModuleNotFound);
        },
    };
    let n = input.unicode_len();
    let k = find_char(input, ':');
    let prefix = if k < n {
        input.substring_char(0, k)
    } else {
        input.substring_char(n, n)
    };
    let suffix = if k < n {
        input.substring_char(k + 1, n)
    } else {
        input
    };
    proof {
        if k < n {
            assert(prefix@ =~= input@.take(k as int));
            assert(suffix@ =~= input@.skip(k as int + 1));
        } else {
            assert(prefix@ =~= Seq::<char>::empty());
        }
    }
    let start = match parse_start(init, prefix) {
        Ok(v) => v,
        Err(e) => {
            return Err(e);
        },
    };
    let stop = match parse_stop(start, suffix) {
        Ok(v) => v,
        Err(e) => {
            return Err(e);
        },
    };
    Ok((start, stop))
}

} // verus!
