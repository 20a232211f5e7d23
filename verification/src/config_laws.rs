//! What the device configuration text says, stated over its literal form.

use vstd::prelude::*;
use vstd::string::StringSliceAdditionalSpecFns;
use crate::device::{bool_digit, config_text, decimal, frequency_level_name, isa_name, Config, FrequencyLevel, Isa};

verus! {

/// `t` ends with `s`.
pub open spec fn ends_with(t: Seq<u8>, s: Seq<u8>) -> bool {
    t.len() >= s.len() && t.subrange(t.len() - s.len(), t.len() as int) == s
}

/// The bytes of an ASCII string made of two ASCII strings are the bytes of the
/// first followed by the bytes of the second.
proof fn lemma_ascii_concat_bytes(a: &str, b: &str, ab: &str)
    requires
        vstd::string::is_ascii(a),
        vstd::string::is_ascii(b),
        ab@ == a@ + b@,
    ensures
        ab.spec_bytes() == a.spec_bytes() + b.spec_bytes(),
{
    broadcast use vstd::string::is_ascii_spec_bytes;
    assert(vstd::string::is_ascii(ab)) by {
        assert forall|i| 0 <= i < ab@.len() implies '\0' <= #[trigger] ab@[i] <= '\u{7f}' by {
            if i < a@.len() {
                assert(ab@[i] == a@[i]);
            } else {
                assert(ab@[i] == b@[i - a@.len()]);
            }
        }
    }
    assert(ab.spec_bytes() =~= a.spec_bytes() + b.spec_bytes());
}

/// The configuration text ends with `frequency_level=F` whenever a frequency
/// level `F` is chosen, whether or not an ISA is chosen.
pub proof fn lemma_config_text_frequency_level(c: Config)
    ensures
        c.frequency_level == Some(FrequencyLevel::Simd128)
            ==> ends_with(config_text(c), "frequency_level=simd128".spec_bytes()),
        c.frequency_level == Some(FrequencyLevel::Simd256)
            ==> ends_with(config_text(c), "frequency_level=simd256".spec_bytes()),
        c.frequency_level == Some(FrequencyLevel::Simd512)
            ==> ends_with(config_text(c), "frequency_level=simd512".spec_bytes()),
{
    match c.frequency_level {
        Some(f) => {
            let tail = "frequency_level=".spec_bytes() + frequency_level_name(f).spec_bytes();
            let t = config_text(c);
            assert(t.subrange(t.len() - tail.len(), t.len() as int) =~= tail);
            reveal_strlit("frequency_level=");
            match f {
                FrequencyLevel::Simd128 => {
                    reveal_strlit("simd128");
                    reveal_strlit("frequency_level=simd128");
                    assert("frequency_level=simd128"@ =~= "frequency_level="@ + "simd128"@);
                    lemma_ascii_concat_bytes("frequency_level=", "simd128", "frequency_level=simd128");
                },
                FrequencyLevel::Simd256 => {
                    reveal_strlit("simd256");
                    reveal_strlit("frequency_level=simd256");
                    assert("frequency_level=simd256"@ =~= "frequency_level="@ + "simd256"@);
                    lemma_ascii_concat_bytes("frequency_level=", "simd256", "frequency_level=simd256");
                },
                FrequencyLevel::Simd512 => {
                    reveal_strlit("simd512");
                    reveal_strlit("frequency_level=simd512");
                    assert("frequency_level=simd512"@ =~= "frequency_level="@ + "simd512"@);
                    lemma_ascii_concat_bytes("frequency_level=", "simd512", "frequency_level=simd512");
                },
            }
        },
        None => {},
    }
}

/// Choosing a frequency level appends `frequency_level=F` to the text the
/// same configuration gives without one, whatever else is chosen (the ISA
/// included).
pub proof fn lemma_config_text_appends_frequency_level(c: Config)
    ensures
        config_text(c) == config_text(Config { frequency_level: None, ..c }) + match c.frequency_level {
            Some(FrequencyLevel::Simd128) => "frequency_level=simd128".spec_bytes(),
            Some(FrequencyLevel::Simd256) => "frequency_level=simd256".spec_bytes(),
            Some(FrequencyLevel::Simd512) => "frequency_level=simd512".spec_bytes(),
            None => Seq::<u8>::empty(),
        },
{
    let base = config_text(Config { frequency_level: None, ..c });
    match c.frequency_level {
        Some(f) => {
            assert(config_text(c) =~= base + ("frequency_level=".spec_bytes() + frequency_level_name(f).spec_bytes()));
            reveal_strlit("frequency_level=");
            match f {
                FrequencyLevel::Simd128 => {
                    reveal_strlit("simd128");
                    reveal_strlit("frequency_level=simd128");
                    assert("frequency_level=simd128"@ =~= "frequency_level="@ + "simd128"@);
                    lemma_ascii_concat_bytes("frequency_level=", "simd128", "frequency_level=simd128");
                },
                FrequencyLevel::Simd256 => {
                    reveal_strlit("simd256");
                    reveal_strlit("frequency_level=simd256");
                    assert("frequency_level=simd256"@ =~= "frequency_level="@ + "simd256"@);
                    lemma_ascii_concat_bytes("frequency_level=", "simd256", "frequency_level=simd256");
                },
                FrequencyLevel::Simd512 => {
                    reveal_strlit("simd512");
                    reveal_strlit("frequency_level=simd512");
                    assert("frequency_level=simd512"@ =~= "frequency_level="@ + "simd512"@);
                    lemma_ascii_concat_bytes("frequency_level=", "simd512", "frequency_level=simd512");
                },
            }
        },
        None => {
            assert(config_text(c) =~= base + Seq::<u8>::empty());
        },
    }
}

/// Without a frequency level, choosing an ISA appends `isa=I,` to the text
/// the same configuration gives without one.
pub proof fn lemma_config_text_appends_isa(c: Config)
    requires
        c.frequency_level is None,
    ensures
        config_text(c) == config_text(Config { isa: None, ..c }) + match c.isa {
            Some(Isa::Sse2) => "isa=sse2,".spec_bytes(),
            Some(Isa::Sse4_2) => "isa=sse4.2,".spec_bytes(),
            Some(Isa::Avx) => "isa=avx,".spec_bytes(),
            Some(Isa::Avx2) => "isa=avx2,".spec_bytes(),
            Some(Isa::Avx512) => "isa=avx512,".spec_bytes(),
            None => Seq::<u8>::empty(),
        },
{
    let base = config_text(Config { isa: None, ..c });
    match c.isa {
        Some(i) => {
            assert(config_text(c) =~= base + ("isa=".spec_bytes() + isa_name(i).spec_bytes() + ",".spec_bytes()));
            reveal_strlit("isa=");
            reveal_strlit(",");
            match i {
                Isa::Sse2 => {
                    reveal_strlit("sse2");
                    reveal_strlit("isa=sse2");
                    reveal_strlit("isa=sse2,");
                    assert("isa=sse2"@ =~= "isa="@ + "sse2"@);
                    lemma_ascii_concat_bytes("isa=", "sse2", "isa=sse2");
                    assert("isa=sse2,"@ =~= "isa=sse2"@ + ","@);
                    lemma_ascii_concat_bytes("isa=sse2", ",", "isa=sse2,");
                },
                Isa::Sse4_2 => {
                    reveal_strlit("sse4.2");
                    reveal_strlit("isa=sse4.2");
                    reveal_strlit("isa=sse4.2,");
                    assert("isa=sse4.2"@ =~= "isa="@ + "sse4.2"@);
                    lemma_ascii_concat_bytes("isa=", "sse4.2", "isa=sse4.2");
                    assert("isa=sse4.2,"@ =~= "isa=sse4.2"@ + ","@);
                    lemma_ascii_concat_bytes("isa=sse4.2", ",", "isa=sse4.2,");
                },
                Isa::Avx => {
                    reveal_strlit("avx");
                    reveal_strlit("isa=avx");
                    reveal_strlit("isa=avx,");
                    assert("isa=avx"@ =~= "isa="@ + "avx"@);
                    lemma_ascii_concat_bytes("isa=", "avx", "isa=avx");
                    assert("isa=avx,"@ =~= "isa=avx"@ + ","@);
                    lemma_ascii_concat_bytes("isa=avx", ",", "isa=avx,");
                },
                Isa::Avx2 => {
                    reveal_strlit("avx2");
                    reveal_strlit("isa=avx2");
                    reveal_strlit("isa=avx2,");
                    assert("isa=avx2"@ =~= "isa="@ + "avx2"@);
                    lemma_ascii_concat_bytes("isa=", "avx2", "isa=avx2");
                    assert("isa=avx2,"@ =~= "isa=avx2"@ + ","@);
                    lemma_ascii_concat_bytes("isa=avx2", ",", "isa=avx2,");
                },
                Isa::Avx512 => {
                    reveal_strlit("avx512");
                    reveal_strlit("isa=avx512");
                    reveal_strlit("isa=avx512,");
                    assert("isa=avx512"@ =~= "isa="@ + "avx512"@);
                    lemma_ascii_concat_bytes("isa=", "avx512", "isa=avx512");
                    assert("isa=avx512,"@ =~= "isa=avx512"@ + ","@);
                    lemma_ascii_concat_bytes("isa=avx512", ",", "isa=avx512,");
                },
            }
        },
        None => {
            assert(config_text(c) =~= base + Seq::<u8>::empty());
        },
    }
}

/// With neither an ISA nor a frequency level chosen, the text starts with
/// `threads=` and ends with `,enable_selockmemoryprivilege=L,`.
pub proof fn lemma_config_text_plain_ends(c: Config)
    requires
        c.isa is None,
        c.frequency_level is None,
    ensures
        c.enable_selockmemoryprivilege
            ==> ends_with(config_text(c), ",enable_selockmemoryprivilege=1,".spec_bytes()),
        !c.enable_selockmemoryprivilege
            ==> ends_with(config_text(c), ",enable_selockmemoryprivilege=0,".spec_bytes()),
        config_text(c).subrange(0, 8) == "threads=".spec_bytes(),
{
    reveal_strlit("threads=");
    reveal_strlit(",enable_selockmemoryprivilege=");
    reveal_strlit(",");
    reveal_strlit("0");
    reveal_strlit("1");
    reveal_strlit(",enable_selockmemoryprivilege=0");
    reveal_strlit(",enable_selockmemoryprivilege=1");
    reveal_strlit(",enable_selockmemoryprivilege=0,");
    reveal_strlit(",enable_selockmemoryprivilege=1,");
    broadcast use vstd::string::is_ascii_spec_bytes;
    let tail = ",enable_selockmemoryprivilege=".spec_bytes() + bool_digit(c.enable_selockmemoryprivilege) + ",".spec_bytes();
    let t = config_text(c);
    assert(t.subrange(t.len() - tail.len(), t.len() as int) =~= tail);
    assert(",enable_selockmemoryprivilege=0"@ =~= ",enable_selockmemoryprivilege="@ + "0"@);
    lemma_ascii_concat_bytes(",enable_selockmemoryprivilege=", "0", ",enable_selockmemoryprivilege=0");
    assert(",enable_selockmemoryprivilege=0,"@ =~= ",enable_selockmemoryprivilege=0"@ + ","@);
    lemma_ascii_concat_bytes(",enable_selockmemoryprivilege=0", ",", ",enable_selockmemoryprivilege=0,");
    assert(",enable_selockmemoryprivilege=1"@ =~= ",enable_selockmemoryprivilege="@ + "1"@);
    lemma_ascii_concat_bytes(",enable_selockmemoryprivilege=", "1", ",enable_selockmemoryprivilege=1");
    assert(",enable_selockmemoryprivilege=1,"@ =~= ",enable_selockmemoryprivilege=1"@ + ","@);
    lemma_ascii_concat_bytes(",enable_selockmemoryprivilege=1", ",", ",enable_selockmemoryprivilege=1,");
    assert(vstd::string::is_ascii("1") && vstd::string::is_ascii("0"));
    assert("1".spec_bytes()[0] == ('1' as u8) && ('1' as u8) == 49u8);
    assert("0".spec_bytes()[0] == ('0' as u8) && ('0' as u8) == 48u8);
    assert(decimal(1) =~= "1".spec_bytes());
    assert(decimal(0) =~= "0".spec_bytes());
    assert(vstd::string::is_ascii("threads="));
    assert("threads=".spec_bytes().len() == 8);
    assert(t.subrange(0, 8) =~= "threads=".spec_bytes());
}

} // verus!
