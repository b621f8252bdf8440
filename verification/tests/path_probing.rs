use s2n_quic_core::frame::path_probing::Probe;

#[test]
fn probing_packet_test() {
    let mut probe = Probe::Probing;
    probe |= Probe::Probing;

    assert_eq!(true, probe.is_probing())
}

#[test]
fn probing_and_non_probing_packet_test() {
    let mut probe = Probe::Probing;
    probe |= Probe::NonProbing;

    assert_eq!(false, probe.is_probing())
}

#[test]
fn non_probing_absorbs_probing() {
    assert!(!(Probe::NonProbing | Probe::Probing).is_probing());
    assert!(!(Probe::NonProbing | Probe::NonProbing).is_probing());
    assert!((Probe::Probing | Probe::Probing).is_probing());
}
