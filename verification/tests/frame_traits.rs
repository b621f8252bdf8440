use s2n_quic_core::frame::ack_elicitation::{AckElicitable, AckElicitation};
use s2n_quic_core::frame::congestion_controlled::CongestionControlled;
use s2n_quic_core::frame::connection_progress::ConnectionProgress;
use s2n_quic_core::frame::forward_progress::ForwardProgress;
use s2n_quic_core::frame::path_probing::{PathProbing, Probe};
use s2n_quic_core::frame::{Ack, ConnectionClose, Crypto, MaxData, Padding, PathChallenge};
use s2n_quic_core::packet::PacketNumberSpace;
use s2n_quic_core::varint::VarInt;

#[test]
fn ack_elicitation_combines_like_or() {
    assert_eq!(AckElicitation::default(), AckElicitation::NonEliciting);
    assert!(!AckElicitation::NonEliciting.is_ack_eliciting());
    assert!(AckElicitation::Eliciting.is_ack_eliciting());
    assert_eq!(AckElicitation::NonEliciting | AckElicitation::Eliciting, AckElicitation::Eliciting);
    assert_eq!(AckElicitation::NonEliciting | AckElicitation::NonEliciting, AckElicitation::NonEliciting);
    let mut e = AckElicitation::default();
    e |= AckElicitation::Eliciting;
    e |= AckElicitation::NonEliciting;
    assert!(e.is_ack_eliciting());
}

#[test]
fn which_frames_elicit_acks() {
    let (ack, _) = Ack::decode(0x02, &[1, 0, 0, 0]).unwrap();
    assert_eq!(ack.ack_elicitation(), AckElicitation::NonEliciting);
    assert_eq!(Padding { length: 1 }.ack_elicitation(), AckElicitation::NonEliciting);
    let close = ConnectionClose { error_code: VarInt::from_u8(0), frame_type: None, reason: None };
    assert_eq!(close.ack_elicitation(), AckElicitation::NonEliciting);
    assert_eq!(MaxData { maximum_data: VarInt::from_u8(1) }.ack_elicitation(), AckElicitation::Eliciting);
}

#[test]
fn which_frames_are_congestion_controlled() {
    let (ack, _) = Ack::decode(0x02, &[1, 0, 0, 0]).unwrap();
    assert!(!ack.is_congestion_controlled());
    assert!(!Padding { length: 1 }.is_congestion_controlled());
    assert!(MaxData { maximum_data: VarInt::from_u8(1) }.is_congestion_controlled());
}

#[test]
fn which_frames_probe_paths() {
    let data = [0u8; 8];
    assert_eq!(PathChallenge { data: &data }.probe(), Probe::Probing);
    assert_eq!(Padding { length: 1 }.probe(), Probe::Probing);
    assert_eq!(MaxData { maximum_data: VarInt::from_u8(1) }.probe(), Probe::NonProbing);
}

#[test]
fn crypto_frames_progress_the_handshake() {
    let data = [1u8; 10];
    let crypto = Crypto { offset: VarInt::from_u8(0), data: &data[..] };
    // type, offset, length, ten bytes
    assert_eq!(ConnectionProgress::bytes_progressed(&crypto, PacketNumberSpace::Initial), 13);
    assert_eq!(ConnectionProgress::bytes_progressed(&crypto, PacketNumberSpace::Handshake), 13);
    assert_eq!(ConnectionProgress::bytes_progressed(&crypto, PacketNumberSpace::ApplicationData), 0);
    assert_eq!(ForwardProgress::bytes_progressed(&crypto), 0);
    let max_data = MaxData { maximum_data: VarInt::from_u8(1) };
    assert_eq!(ConnectionProgress::bytes_progressed(&max_data, PacketNumberSpace::Initial), 0);
}
