//! Device configuration and its textual form.

use vstd::prelude::*;
use vstd::string::StringSliceAdditionalSpecFns;

verus! {

/// Instruction Set Architecture.
#[derive(Clone, Copy, Debug, PartialEq, Eq, Structural)]
pub enum Isa {
    /// SSE2.
    Sse2,
    /// SSE4.2.
    Sse4_2,
    /// AVX.
    Avx,
    /// AVX2.
    Avx2,
    /// AVX-512.
    Avx512,
}

/// Name of an ISA in device configuration strings.
pub open spec fn isa_name(isa: Isa) -> &'static str {
    match isa {
        Isa::Sse2 => "sse2",
        Isa::Sse4_2 => "sse4.2",
        Isa::Avx => "avx",
        Isa::Avx2 => "avx2",
        Isa::Avx512 => "avx512",
    }
}

impl Isa {
    /// Name of the ISA in device configuration strings.
    pub fn name(&self) -> (r: &'static str)
        ensures
            r == isa_name(*self),
    {
        match self {
            Isa::Sse2 => "sse2",
            Isa::Sse4_2 => "sse4.2",
            Isa::Avx => "avx",
            Isa::Avx2 => "avx2",
            Isa::Avx512 => "avx512",
        }
    }
}

/// Frequency level of the application.
#[derive(Clone, Copy, Debug, PartialEq, Eq, Structural)]
pub enum FrequencyLevel {
    /// Run at highest frequency.
    Simd128,
    /// Run at AVX2-heavy frequency level.
    Simd256,
    /// Run at AVX512-heavy frequency level.
    Simd512,
}

/// Name of a frequency level in device configuration strings.
pub open spec fn frequency_level_name(level: FrequencyLevel) -> &'static str {
    match level {
        FrequencyLevel::Simd128 => "simd128",
        FrequencyLevel::Simd256 => "simd256",
        FrequencyLevel::Simd512 => "simd512",
    }
}

impl FrequencyLevel {
    /// Name of the frequency level in device configuration strings.
    pub fn name(&self) -> (r: &'static str)
        ensures
            r == frequency_level_name(*self),
    {
        match self {
            FrequencyLevel::Simd128 => "simd128",
            FrequencyLevel::Simd256 => "simd256",
            FrequencyLevel::Simd512 => "simd512",
        }
    }
}

/// Embree device configuration.
#[derive(Clone, Copy, Debug, PartialEq, Eq, Structural)]
pub struct Config {
    /// The number of build threads. A value of 0 enables all detected hardware threads.
    pub threads: u32,
    /// The number of user threads that can be used to join and participate in a scene commit.
    pub user_threads: u32,
    /// Whether build threads are affinitized to hardware threads.
    pub set_affinity: bool,
    /// When enabled, the build threads are started upfront.
    pub start_threads: bool,
    /// ISA selection; chosen automatically when `None`.
    pub isa: Option<Isa>,
    /// The automated ISA selection uses at most this ISA.
    pub max_isa: Isa,
    /// Enables or disables usage of huge pages.
    pub hugepages: bool,
    /// Enables or disables the SeLockMemoryPrivilege privilege (Windows only).
    pub enable_selockmemoryprivilege: bool,
    /// Verbosity of the output [0, 1, 2, 3].
    pub verbose: u32,
    /// Frequency level the application wants to run on.
    pub frequency_level: Option<FrequencyLevel>,
}

/// Decimal digits of `n`, most significant first, in ASCII.
pub open spec fn decimal(n: nat) -> Seq<u8>
    decreases n,
{
    if n < 10 {
        seq![(48 + n) as u8]
    } else {
        decimal(n / 10).push((48 + n % 10) as u8)
    }
}

/// ASCII digit of a boolean: `1` or `0`.
pub open spec fn bool_digit(b: bool) -> Seq<u8> {
    if b { decimal(1) } else { decimal(0) }
}

/// Textual form of a configuration, as Embree reads it:
/// `threads=T,user_threads=U,verbose=V,set_affinity=A,start_threads=S,max_isa=M,hugepages=H,enable_selockmemoryprivilege=L,`
/// followed by `isa=I,` when an ISA is selected and `frequency_level=F` when a
/// frequency level is selected. Booleans are written as 0 or 1.
pub open spec fn config_text(c: Config) -> Seq<u8> {
    "threads=".spec_bytes() + decimal(c.threads as nat)
        + ",user_threads=".spec_bytes() + decimal(c.user_threads as nat)
        + ",verbose=".spec_bytes() + decimal(c.verbose as nat)
        + ",set_affinity=".spec_bytes() + bool_digit(c.set_affinity)
        + ",start_threads=".spec_bytes() + bool_digit(c.start_threads)
        + ",max_isa=".spec_bytes() + isa_name(c.max_isa).spec_bytes()
        + ",hugepages=".spec_bytes() + bool_digit(c.hugepages)
        + ",enable_selockmemoryprivilege=".spec_bytes() + bool_digit(c.enable_selockmemoryprivilege)
        + ",".spec_bytes()
        + match c.isa {
            Some(isa) => "isa=".spec_bytes() + isa_name(isa).spec_bytes() + ",".spec_bytes(),
            None => Seq::<u8>::empty(),
        }
        + match c.frequency_level {
            Some(f) => "frequency_level=".spec_bytes() + frequency_level_name(f).spec_bytes(),
            None => Seq::<u8>::empty(),
        }
}

/// Appends the bytes of `s` to `out`.
fn push_str(out: &mut Vec<u8>, s: &str)
    ensures
        final(out)@ == old(out)@ + s.spec_bytes(),
{
    let b = s.as_bytes();
    let mut i: usize = 0;
    while i < b.len()
        invariant
            i <= b@.len(),
            b@ == s.spec_bytes(),
            out@ == old(out)@ + b@.subrange(0, i as int),
        decreases b@.len() - i,
    {
        out.push(b[i]);
        i = i + 1;
        assert(b@.subrange(0, i as int) == b@.subrange(0, i - 1).push(b@[i - 1]));
    }
    assert(b@.subrange(0, b@.len() as int) == b@);
}

/// Appends the decimal digits of `n` to `out`.
fn push_decimal(out: &mut Vec<u8>, n: u32)
    ensures
        final(out)@ == old(out)@ + decimal(n as nat),
    decreases n,
{
    if n >= 10 {
        push_decimal(out, n / 10);
    }
    let d: u8 = (n % 10) as u8;
    out.push(48 + d);
    if n >= 10 {
        assert(decimal(n as nat) == decimal((n / 10) as nat).push((48 + n % 10) as u8));
    }
}

/// Appends `1` or `0` to `out`.
fn push_bool(out: &mut Vec<u8>, b: bool)
    ensures
        final(out)@ == old(out)@ + bool_digit(b),
{
    push_decimal(out, if b { 1 } else { 0 });
}

impl Config {
    /// The default configuration: all hardware threads, no user threads, no
    /// affinity, threads started lazily, ISA chosen automatically up to
    /// AVX-512, huge pages on Linux only, no verbosity and no frequency level.
    pub fn default_for_os(linux: bool) -> (r: Config)
        ensures
            r == (Config {
                threads: 0,
                user_threads: 0,
                set_affinity: false,
                start_threads: false,
                isa: None,
                max_isa: Isa::Avx512,
                hugepages: linux,
                enable_selockmemoryprivilege: false,
                verbose: 0,
                frequency_level: None,
            }),
    {
        Config {
            threads: 0,
            user_threads: 0,
            set_affinity: false,
            start_threads: false,
            isa: None,
            max_isa: Isa::Avx512,
            hugepages: linux,
            enable_selockmemoryprivilege: false,
            verbose: 0,
            frequency_level: None,
        }
    }

    /// Converts the configuration to the text Embree reads (without a
    /// terminating NUL).
    pub fn to_c_string(&self) -> (r: Vec<u8>)
        ensures
            r@ == config_text(*self),
    {
        let mut out: Vec<u8> = Vec::new();
        push_str(&mut out, "threads=");
        push_decimal(&mut out, self.threads);
        push_str(&mut out, ",user_threads=");
        push_decimal(&mut out, self.user_threads);
        push_str(&mut out, ",verbose=");
        push_decimal(&mut out, self.verbose);
        push_str(&mut out, ",set_affinity=");
        push_bool(&mut out, self.set_affinity);
        push_str(&mut out, ",start_threads=");
        push_bool(&mut out, self.start_threads);
        push_str(&mut out, ",max_isa=");
        push_str(&mut out, self.max_isa.name());
        push_str(&mut out, ",hugepages=");
        push_bool(&mut out, self.hugepages);
        push_str(&mut out, ",enable_selockmemoryprivilege=");
        push_bool(&mut out, self.enable_selockmemoryprivilege);
        push_str(&mut out, ",");
        match self.isa {
            Some(isa) => {
                push_str(&mut out, "isa=");
                push_str(&mut out, isa.name());
                push_str(&mut out, ",");
            },
            None => {},
        }
        match self.frequency_level {
            Some(f) => {
                push_str(&mut out, "frequency_level=");
                push_str(&mut out, f.name());
            },
            None => {},
        }
        out
    }
}

} // verus!
