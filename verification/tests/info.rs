use s2n_quic_core::event::metrics::aggregate::info::{self, Str};
use s2n_quic_core::event::metrics::aggregate::Units;

#[test]
fn str_deref_excludes_nul() {
    let s = Str::new("hello\0");
    let deref: &str = &s;
    assert_eq!(deref, "hello");
    // Ensure as_bytes via Deref does not include the nul
    assert_eq!(s.as_bytes(), b"hello");
}

#[test]
fn str_as_ref_str_excludes_nul() {
    let s = Str::new("test\0");
    let r: &str = s.as_ref();
    assert_eq!(r, "test");
}

#[test]
fn str_of_nul_alone_is_empty() {
    let s = Str::new("\0");
    assert_eq!(s.as_str(), "");
}

#[test]
fn str_keeps_non_ascii_text() {
    let s = Str::new("h\u{e9}\0");
    assert_eq!(s.as_str(), "h\u{e9}");
}

#[test]
fn units_names() {
    assert_eq!(Units::Unitless.as_str().as_str(), "");
    assert_eq!(Units::Bytes.as_str().as_str(), "bytes");
    assert_eq!(Units::Duration.as_str().as_str(), "duration");
}

#[test]
fn info_builder_keeps_fields() {
    let name = Str::new("bytes_sent\0");
    let info = info::Builder { id: 7, name, units: Units::Bytes }.build();
    assert_eq!(info.id, 7);
    assert_eq!(info.name.as_str(), "bytes_sent");
    assert_eq!(info.units, Units::Bytes);

    let variant = info::variant::Builder { id: 3, name: Str::new("initial\0") }.build();
    assert_eq!(variant.id, 3);
    assert_eq!(&*variant.name, "initial");
}
