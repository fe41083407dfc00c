use vstd::prelude::*;

use vstd::arithmetic::power2::{lemma2_to64, lemma_pow2_strictly_increases, lemma_pow2_unfold, pow2};

verus! {

/// The path that stands for standard input.
pub const STDIN_PATH: &'static str = "-";

/// The default number of bits of the context window size (a window of 2048).
pub const DEFAULT_CONTEXT_BITS: u32 = 11;

/// The run's configuration, as given on the command line.
pub struct Args {
    /// How many times more logging output was asked for.
    pub verbose: u8,
    /// The file to summarize; `-` reads standard input.
    pub path: String,
    /// The number of bits of the context window size (the window is 2^n).
    pub context_size: u32,
    /// The model file, where one is given.
    pub model_path: Option<String>,
}

impl Default for Args {
    /// No extra logging, standard input, a window of 2^11, no model path.
    fn default() -> (r: Args)
        ensures
            r.verbose == 0,
            r.path@ == STDIN_PATH@,
            r.context_size == DEFAULT_CONTEXT_BITS,
            r.model_path is None,
    {
        Args {
            verbose: 0,
            path: String::from_str(STDIN_PATH),
            context_size: DEFAULT_CONTEXT_BITS,
            model_path: None,
        }
    }
}

/// The least severe level logged at a verbosity.
pub open spec fn log_level_spec(verbose: u8) -> Seq<char> {
    if verbose == 0 {
        "warn"@
    } else if verbose == 1 {
        "info"@
    } else if verbose == 2 {
        "debug"@
    } else {
        "trace"@
    }
}

impl Args {
    /// The log filter for the verbosity asked for: `warn`, `info`, `debug`,
    /// then `trace` from three on.
    pub fn log_level(&self) -> (r: &'static str)
        ensures
            r@ == log_level_spec(self.verbose),
    {
        if self.verbose == 0 {
            "warn"
        } else if self.verbose == 1 {
            "info"
        } else if self.verbose == 2 {
            "debug"
        } else {
            "trace"
        }
    }

    /// Whether the text comes from standard input rather than a file.
    pub fn reads_stdin(&self) -> (r: bool)
        ensures
            r == (self.path@ == STDIN_PATH@),
    {
        let n = self.path.unicode_len();
        proof {
            reveal_strlit("-");
        }
        if n != 1 {
            return false;
        }
        let c = self.path.as_str().get_char(0);
        assert(n == 1 && c == '-' ==> self.path@ =~= STDIN_PATH@);
        c == '-'
    }

    /// The context window size, 2^`context_size`, or `None` where that does
    /// not fit in a `usize`.
    pub fn context_window(&self) -> (r: Option<usize>)
        ensures
            r is Some <==> pow2(self.context_size as nat) <= usize::MAX,
            r matches Some(n) ==> n == pow2(self.context_size as nat),
    {
        context_window(self.context_size)
    }
}

/// 2^`bits`, or `None` where that does not fit in a `usize`.
pub fn context_window(bits: u32) -> (r: Option<usize>)
    ensures
        r is Some <==> pow2(bits as nat) <= usize::MAX,
        r matches Some(n) ==> n == pow2(bits as nat),
{
    let mut n: usize = 1;
    let mut i: u32 = 0;
    proof {
        lemma2_to64();
    }
    while i < bits
        invariant
            i <= bits,
            n == pow2(i as nat),
        decreases bits - i,
    {
        proof {
            lemma_pow2_unfold((i + 1) as nat);
        }
        if n > usize::MAX / 2 {
            proof {
                if i + 1 < bits {
                    lemma_pow2_strictly_increases((i + 1) as nat, bits as nat);
                }
            }
            return None;
        }
        n = n * 2;
        i = i + 1;
    }
    Some(n)
}

} // verus!
