use embree::device::{Config, FrequencyLevel, Isa};
use embree::error::Error;

#[test]
fn default_config_text() {
    let cfg = Config::default_for_os(true);
    assert_eq!(
        String::from_utf8(cfg.to_c_string()).unwrap(),
        "threads=0,user_threads=0,verbose=0,set_affinity=0,start_threads=0,max_isa=avx512,hugepages=1,enable_selockmemoryprivilege=0,"
    );
    let cfg = Config::default_for_os(false);
    assert!(!cfg.hugepages);
    assert_eq!(cfg.max_isa, Isa::Avx512);
}

#[test]
fn config_text_with_isa_and_frequency_level() {
    let mut cfg = Config::default_for_os(false);
    cfg.threads = 128;
    cfg.user_threads = 2;
    cfg.verbose = 3;
    cfg.set_affinity = true;
    cfg.isa = Some(Isa::Sse4_2);
    cfg.max_isa = Isa::Avx2;
    cfg.frequency_level = Some(FrequencyLevel::Simd256);
    assert_eq!(
        String::from_utf8(cfg.to_c_string()).unwrap(),
        "threads=128,user_threads=2,verbose=3,set_affinity=1,start_threads=0,max_isa=avx2,hugepages=0,enable_selockmemoryprivilege=0,isa=sse4.2,frequency_level=simd256"
    );
    cfg.threads = u32::MAX;
    cfg.isa = None;
    assert!(String::from_utf8(cfg.to_c_string()).unwrap().starts_with("threads=4294967295,user_threads=2,verbose=3,"));
}

#[test]
fn isa_and_frequency_names() {
    assert_eq!(Isa::Sse2.name(), "sse2");
    assert_eq!(Isa::Sse4_2.name(), "sse4.2");
    assert_eq!(Isa::Avx.name(), "avx");
    assert_eq!(Isa::Avx2.name(), "avx2");
    assert_eq!(Isa::Avx512.name(), "avx512");
    assert_eq!(FrequencyLevel::Simd128.name(), "simd128");
    assert_eq!(FrequencyLevel::Simd512.name(), "simd512");
}

#[test]
fn error_codes_and_messages() {
    let all = [
        Error::NoError,
        Error::Unknown,
        Error::InvalidArgument,
        Error::InvalidOperation,
        Error::OutOfMemory,
        Error::UnsupportedCpu,
        Error::Cancelled,
    ];
    for (i, e) in all.iter().enumerate() {
        assert_eq!(e.code(), i as u32);
        assert_eq!(Error::from_code(e.code()), Some(*e));
    }
    assert_eq!(Error::from_code(7), None);
    assert_eq!(Error::InvalidArgument.message(), "An invalid argument was specified.");
    assert_eq!(Error::NoError.message(), "No error occurred.");
}
