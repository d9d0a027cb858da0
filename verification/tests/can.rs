use can_core::can::{
    BaseDataFrame, BaseID, BaseRemoteFrame, CanFrame, DataFrame, ExtendedDataFrame, ExtendedID,
    ExtendedRemoteFrame, ID, RemoteFrame,
};

#[test]
fn base_id_round_trip() {
    let b = BaseID::new(0x123);
    assert_eq!(u16::from(b), 0x123);
    let zero = BaseID::new(0);
    assert_eq!(u16::from(zero), 0);
    let max = BaseID::new(0x7ff);
    assert_eq!(u16::from(max), 0x7ff);
}

#[test]
fn extended_id_round_trip() {
    let e = ExtendedID::new(0x1234_5678);
    assert_eq!(u32::from(e), 0x1234_5678);
    let zero = ExtendedID::new(0);
    assert_eq!(u32::from(zero), 0);
    let max = ExtendedID::new(0x1fff_ffff);
    assert_eq!(u32::from(max), 0x1fff_ffff);
}

#[test]
fn id_widening() {
    let b = BaseID::new(0x7ff);
    assert_eq!(u32::from(ID::BaseID(b)), u16::from(b) as u32);
    assert_eq!(u32::from(ID::BaseID(b)), 0x7ff);
    let e = ExtendedID::new(0x1fff_ffff);
    assert_eq!(u32::from(ID::ExtendedID(e)), u32::from(e));
    assert_eq!(u32::from(ID::ExtendedID(e)), 0x1fff_ffff);
}

#[test]
fn data_length_exposes_exactly_n_bytes() {
    for n in 0..=8usize {
        let mut f = BaseDataFrame::new(BaseID::new(5));
        f.set_data_length(n);
        assert_eq!(f.data().len(), n);

        let mut g = ExtendedDataFrame::new(ExtendedID::new(5));
        g.set_data_length(n);
        assert_eq!(g.data().len(), n);

        let mut h = DataFrame::new(ID::BaseID(BaseID::new(5)));
        h.set_data_length(n);
        assert_eq!(h.data().len(), n);
    }
}

#[test]
fn new_data_frame_is_empty() {
    let f = BaseDataFrame::new(BaseID::new(1));
    assert_eq!(f.data().len(), 0);
    assert_eq!(u16::from(f.id()), 1);
    let g = ExtendedDataFrame::new(ExtendedID::new(2));
    assert_eq!(g.data().len(), 0);
    assert_eq!(u32::from(g.id()), 2);
}

#[test]
fn payload_round_trip() {
    let mut f = BaseDataFrame::new(BaseID::new(0x42));
    f.set_data_length(5);
    let payload = [1u8, 2, 3, 4, 5];
    f.data_as_mut().copy_from_slice(&payload);
    assert_eq!(f.data(), &payload);
}

#[test]
fn payload_round_trip_extended() {
    let mut f = ExtendedDataFrame::new(ExtendedID::new(0x42));
    f.set_data_length(8);
    let payload = [9u8, 8, 7, 6, 5, 4, 3, 2];
    f.data_as_mut().copy_from_slice(&payload);
    assert_eq!(f.data(), &payload);
}

#[test]
fn shrinking_length_truncates_payload() {
    let mut f = BaseDataFrame::new(BaseID::new(3));
    f.set_data_length(4);
    f.data_as_mut().copy_from_slice(&[10, 20, 30, 40]);
    f.set_data_length(2);
    assert_eq!(f.data(), &[10, 20]);
}

#[test]
fn remote_frames() {
    let mut r = BaseRemoteFrame::new(BaseID::new(7));
    r.set_data_length(8);
    assert_eq!(u16::from(r.id()), 7);

    let mut s = ExtendedRemoteFrame::new(ExtendedID::new(9));
    s.set_data_length(1);
    assert_eq!(u32::from(s.id()), 9);

    let t = RemoteFrame::new(ID::ExtendedID(ExtendedID::new(11)));
    assert_eq!(u32::from(t.id()), 11);
}

#[test]
fn frame_conversions() {
    let b = BaseDataFrame::new(BaseID::new(1));
    let df = DataFrame::from(b);
    assert_eq!(u32::from(df.id()), 1);
    let cf = CanFrame::from(b);
    assert_eq!(u32::from(cf.id()), 1);

    let e = ExtendedDataFrame::new(ExtendedID::new(2));
    assert_eq!(u32::from(DataFrame::from(e).id()), 2);
    assert_eq!(u32::from(CanFrame::from(e).id()), 2);

    let br = BaseRemoteFrame::new(BaseID::new(3));
    assert_eq!(u32::from(RemoteFrame::from(br).id()), 3);
    assert_eq!(u32::from(CanFrame::from(br).id()), 3);

    let er = ExtendedRemoteFrame::new(ExtendedID::new(4));
    assert_eq!(u32::from(RemoteFrame::from(er).id()), 4);
    assert_eq!(u32::from(CanFrame::from(er).id()), 4);

    let rf = RemoteFrame::new(ID::BaseID(BaseID::new(5)));
    assert_eq!(u32::from(CanFrame::from(rf).id()), 5);

    let df2 = DataFrame::new(ID::ExtendedID(ExtendedID::new(6)));
    assert_eq!(u32::from(CanFrame::from(df2).id()), 6);
}

#[test]
fn end_to_end_data_frame() {
    let b = BaseID::new(0x123);
    let mut frame = DataFrame::new(ID::BaseID(b));
    frame.set_data_length(3);
    frame.data_as_mut().copy_from_slice(&[0xDE, 0xAD, 0xBE]);
    assert_eq!(frame.data(), &[0xDE, 0xAD, 0xBE]);
    let can_frame = CanFrame::from(frame);
    match can_frame.id() {
        ID::BaseID(got) => assert_eq!(u16::from(got), 0x123),
        ID::ExtendedID(_) => panic!("expected a base identifier"),
    }
}
