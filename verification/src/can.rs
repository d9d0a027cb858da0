//! The CAN identifier and frame model: 11-bit and 29-bit identifiers with
//! their bit-range invariants, data and remote frames with a length-bounded
//! payload, and the tagged unions that join them.

use vstd::prelude::*;

verus! {

broadcast use vstd::array::group_array_axioms;

/// An 11-bit CAN identifier (CAN2.0A). No bit above bit 10 may be set.
#[derive(Clone, Copy, Debug, PartialEq, Eq, Structural)]
pub struct BaseID(u16);

impl View for BaseID {
    type V = u16;

    closed spec fn view(&self) -> u16 {
        self.0
    }
}

/// The bit-range invariant of an 11-bit identifier.
pub open spec fn base_id_valid(v: u16) -> bool {
    v & 0xf800 == 0
}

impl BaseID {
    /// Every identifier value in existence satisfies the bit-range
    /// invariant: the only constructor demands it.
    #[verifier::type_invariant]
    spec fn valid(self) -> bool {
        base_id_valid(self@)
    }

    /// Constructs an 11-bit identifier from a raw value. A value with a bit
    /// above bit 10 set is a caller bug, ruled out by precondition.
    pub fn new(id: u16) -> (r: Self)
        requires
            base_id_valid(id),
        ensures
            r@ == id,
    {
        BaseID(id)
    }
}

impl From<BaseID> for u16 {
    /// The conversion back to the raw value is total and lossless.
    fn from(id: BaseID) -> (r: u16) {
        id.0
    }
}

impl vstd::std_specs::convert::FromSpecImpl<BaseID> for u16 {
    open spec fn obeys_from_spec() -> bool {
        true
    }

    open spec fn from_spec(id: BaseID) -> u16 {
        id@
    }
}

/// A 29-bit CAN identifier (CAN2.0B). No bit above bit 28 may be set.
#[derive(Clone, Copy, Debug, PartialEq, Eq, Structural)]
pub struct ExtendedID(u32);

impl View for ExtendedID {
    type V = u32;

    closed spec fn view(&self) -> u32 {
        self.0
    }
}

/// The bit-range invariant of a 29-bit identifier.
pub open spec fn extended_id_valid(v: u32) -> bool {
    v & 0xe000_0000 == 0
}

impl ExtendedID {
    /// Every identifier value in existence satisfies the bit-range
    /// invariant: the only constructor demands it.
    #[verifier::type_invariant]
    spec fn valid(self) -> bool {
        extended_id_valid(self@)
    }

    /// Constructs a 29-bit identifier from a raw value. A value with a bit
    /// above bit 28 set is a caller bug, ruled out by precondition.
    pub fn new(id: u32) -> (r: Self)
        requires
            extended_id_valid(id),
        ensures
            r@ == id,
    {
        ExtendedID(id)
    }
}

impl From<ExtendedID> for u32 {
    /// The conversion back to the raw value is total and lossless.
    fn from(id: ExtendedID) -> (r: u32) {
        id.0
    }
}

impl vstd::std_specs::convert::FromSpecImpl<ExtendedID> for u32 {
    open spec fn obeys_from_spec() -> bool {
        true
    }

    open spec fn from_spec(id: ExtendedID) -> u32 {
        id@
    }
}

/// A CAN ID, either Extended (29-bit CAN2.0B) or Base (normal 11-bit CAN2.0A).
#[derive(Clone, Copy, Debug, PartialEq, Eq, Structural)]
pub enum ID {
    /// ID for CAN2.0A frames
    BaseID(BaseID),
    /// ID for CAN2.0B frames
    ExtendedID(ExtendedID),
}

/// The numeric identifier value a transport places on the wire: a base
/// identifier zero-extends, an extended identifier passes through unchanged.
pub open spec fn id_to_u32(id: ID) -> u32 {
    match id {
        ID::BaseID(x) => x@ as u32,
        ID::ExtendedID(x) => x@,
    }
}

/// The bit-range invariant of whichever kind of identifier this is.
pub open spec fn id_valid(id: ID) -> bool {
    match id {
        ID::BaseID(b) => base_id_valid(b@),
        ID::ExtendedID(e) => extended_id_valid(e@),
    }
}

impl From<ID> for u32 {
    /// Widens either kind of identifier to its numeric wire value.
    fn from(id: ID) -> (r: u32) {
        match id {
            ID::BaseID(x) => u16::from(x) as u32,
            ID::ExtendedID(x) => u32::from(x),
        }
    }
}

impl vstd::std_specs::convert::FromSpecImpl<ID> for u32 {
    open spec fn obeys_from_spec() -> bool {
        true
    }

    open spec fn from_spec(id: ID) -> u32 {
        id_to_u32(id)
    }
}

/// A CAN2.0A data frame: an 11-bit identifier and a payload of at most
/// 8 bytes, declared by a length field over fixed backing storage.
#[derive(Clone, Copy, Debug, PartialEq, Eq)]
pub struct BaseDataFrame {
    id: BaseID,
    dlc: u8,
    data: [u8; 8],
}

impl BaseDataFrame {
    /// The identifier the frame is bound to.
    pub closed spec fn spec_id(&self) -> BaseID {
        self.id
    }

    /// The declared payload length.
    pub closed spec fn spec_dlc(&self) -> int {
        self.dlc as int
    }

    /// The full backing storage, 8 bytes.
    pub closed spec fn spec_bytes(&self) -> Seq<u8> {
        self.data@
    }

    /// The payload: the declared-length prefix of the backing storage.
    pub open spec fn payload(&self) -> Seq<u8> {
        self.spec_bytes().take(self.spec_dlc())
    }

    /// The length invariant: the declared length never exceeds the 8 bytes
    /// of backing storage. It holds of every frame value in existence:
    /// the constructor establishes it and every method preserves it.
    #[verifier::type_invariant]
    pub open spec fn wf(&self) -> bool {
        &&& 0 <= self.spec_dlc() <= 8
        &&& self.spec_bytes().len() == 8
    }

    /// Constructs a frame bound to the given identifier, with zero length
    /// and zeroed backing storage.
    pub fn new(id: BaseID) -> (r: Self)
        ensures
            r.wf(),
            r.spec_id() == id,
            r.spec_dlc() == 0,
            r.spec_bytes() == Seq::new(8, |i: int| 0u8),
            r.payload() == Seq::<u8>::empty(),
    {
        let r = Self { id: id, dlc: 0, data: [0; 8] };
        proof {
            assert(r.spec_bytes() =~= Seq::new(8, |i: int| 0u8));
            assert(r.payload() =~= Seq::<u8>::empty());
        }
        r
    }

    /// Declares the payload length. A length above 8 is a caller bug, ruled
    /// out by precondition. The backing bytes are left unchanged.
    pub fn set_data_length(&mut self, length: usize)
        requires
            length <= 8,
        ensures
            final(self).wf(),
            final(self).spec_id() == old(self).spec_id(),
            final(self).spec_dlc() == length,
            final(self).spec_bytes() == old(self).spec_bytes(),
    {
        self.dlc = length as u8;
    }

    /// Exposes exactly the declared-length prefix of the backing storage.
    pub fn data(&self) -> (r: &[u8])
        ensures
            r@ == self.payload(),
            r@.len() == self.spec_dlc(),
            r@.len() <= 8,
    {
        let n = self.dlc as usize;
        proof {
            use_type_invariant(&*self);
            assert(self.spec_bytes().subrange(0, n as int) =~= self.payload());
        }
        &self.data[0..n]
    }

    /// Exposes exactly the declared-length prefix of the backing storage for
    /// writing. The identifier, the declared length and the bytes beyond it
    /// are unaffected by whatever the caller writes through the view.
    pub fn data_as_mut(&mut self) -> (r: &mut [u8])
        ensures
            r@ == old(self).payload(),
            r@.len() == old(self).spec_dlc(),
            r@.len() <= 8,
            final(self).wf(),
            final(self).spec_id() == old(self).spec_id(),
            final(self).spec_dlc() == old(self).spec_dlc(),
            final(self).spec_bytes() == final(r)@ + old(self).spec_bytes().skip(old(self).spec_dlc()),
    {
        proof {
            use_type_invariant(&*self);
        }
        let n = self.dlc as usize;
        let s: &mut [u8] = &mut self.data;
        let (prefix, _rest) = s.split_at_mut(n);
        prefix
    }

    /// The identifier the frame is bound to.
    pub fn id(&self) -> (r: BaseID)
        ensures
            r == self.spec_id(),
            base_id_valid(r@),
    {
        proof {
            use_type_invariant(&self.id);
        }
        self.id
    }

    /// Payload round trip: once the writable view handed out by
    /// `data_as_mut` has ended up holding `written`, the frame's payload is
    /// exactly `written`, whose length is the declared length.
    pub proof fn lemma_data_as_mut_payload(pre: Self, post: Self, written: Seq<u8>)
        requires
            pre.wf(),
            post.wf(),
            post.spec_dlc() == pre.spec_dlc(),
            post.spec_bytes() == written + pre.spec_bytes().skip(pre.spec_dlc()),
        ensures
            written.len() == pre.spec_dlc(),
            post.payload() == written,
    {
        assert(post.payload() =~= written);
    }
}

/// A CAN2.0B data frame: a 29-bit identifier and a payload of at most
/// 8 bytes, declared by a length field over fixed backing storage.
#[derive(Clone, Copy, Debug, PartialEq, Eq)]
pub struct ExtendedDataFrame {
    id: ExtendedID,
    dlc: u8,
    data: [u8; 8],
}

impl ExtendedDataFrame {
    /// The identifier the frame is bound to.
    pub closed spec fn spec_id(&self) -> ExtendedID {
        self.id
    }

    /// The declared payload length.
    pub closed spec fn spec_dlc(&self) -> int {
        self.dlc as int
    }

    /// The full backing storage, 8 bytes.
    pub closed spec fn spec_bytes(&self) -> Seq<u8> {
        self.data@
    }

    /// The payload: the declared-length prefix of the backing storage.
    pub open spec fn payload(&self) -> Seq<u8> {
        self.spec_bytes().take(self.spec_dlc())
    }

    /// The length invariant: the declared length never exceeds the 8 bytes
    /// of backing storage. It holds of every frame value in existence:
    /// the constructor establishes it and every method preserves it.
    #[verifier::type_invariant]
    pub open spec fn wf(&self) -> bool {
        &&& 0 <= self.spec_dlc() <= 8
        &&& self.spec_bytes().len() == 8
    }

    /// Constructs a frame bound to the given identifier, with zero length
    /// and zeroed backing storage.
    pub fn new(id: ExtendedID) -> (r: Self)
        ensures
            r.wf(),
            r.spec_id() == id,
            r.spec_dlc() == 0,
            r.spec_bytes() == Seq::new(8, |i: int| 0u8),
            r.payload() == Seq::<u8>::empty(),
    {
        let r = Self { id: id, dlc: 0, data: [0; 8] };
        proof {
            assert(r.spec_bytes() =~= Seq::new(8, |i: int| 0u8));
            assert(r.payload() =~= Seq::<u8>::empty());
        }
        r
    }

    /// Declares the payload length. A length above 8 is a caller bug, ruled
    /// out by precondition. The backing bytes are left unchanged.
    pub fn set_data_length(&mut self, length: usize)
        requires
            length <= 8,
        ensures
            final(self).wf(),
            final(self).spec_id() == old(self).spec_id(),
            final(self).spec_dlc() == length,
            final(self).spec_bytes() == old(self).spec_bytes(),
    {
        self.dlc = length as u8;
    }

    /// Exposes exactly the declared-length prefix of the backing storage.
    pub fn data(&self) -> (r: &[u8])
        ensures
            r@ == self.payload(),
            r@.len() == self.spec_dlc(),
            r@.len() <= 8,
    {
        let n = self.dlc as usize;
        proof {
            use_type_invariant(&*self);
            assert(self.spec_bytes().subrange(0, n as int) =~= self.payload());
        }
        &self.data[0..n]
    }

    /// Exposes exactly the declared-length prefix of the backing storage for
    /// writing. The identifier, the declared length and the bytes beyond it
    /// are unaffected by whatever the caller writes through the view.
    pub fn data_as_mut(&mut self) -> (r: &mut [u8])
        ensures
            r@ == old(self).payload(),
            r@.len() == old(self).spec_dlc(),
            r@.len() <= 8,
            final(self).wf(),
            final(self).spec_id() == old(self).spec_id(),
            final(self).spec_dlc() == old(self).spec_dlc(),
            final(self).spec_bytes() == final(r)@ + old(self).spec_bytes().skip(old(self).spec_dlc()),
    {
        proof {
            use_type_invariant(&*self);
        }
        let n = self.dlc as usize;
        let s: &mut [u8] = &mut self.data;
        let (prefix, _rest) = s.split_at_mut(n);
        prefix
    }

    /// The identifier the frame is bound to.
    pub fn id(&self) -> (r: ExtendedID)
        ensures
            r == self.spec_id(),
            extended_id_valid(r@),
    {
        proof {
            use_type_invariant(&self.id);
        }
        self.id
    }

    /// Payload round trip: once the writable view handed out by
    /// `data_as_mut` has ended up holding `written`, the frame's payload is
    /// exactly `written`, whose length is the declared length.
    pub proof fn lemma_data_as_mut_payload(pre: Self, post: Self, written: Seq<u8>)
        requires
            pre.wf(),
            post.wf(),
            post.spec_dlc() == pre.spec_dlc(),
            post.spec_bytes() == written + pre.spec_bytes().skip(pre.spec_dlc()),
        ensures
            written.len() == pre.spec_dlc(),
            post.payload() == written,
    {
        assert(post.payload() =~= written);
    }
}

/// A data frame of either identifier kind: the complete data-frame
/// abstraction a format-agnostic transport consumes or produces.
#[derive(Clone, Copy, Debug, PartialEq, Eq)]
pub enum DataFrame {
    /// A CAN2.0A data frame
    BaseDataFrame(BaseDataFrame),
    /// A CAN2.0B data frame
    ExtendedDataFrame(ExtendedDataFrame),
}

impl DataFrame {
    /// The identifier the frame is bound to, tagged by its kind.
    pub open spec fn spec_id(&self) -> ID {
        match *self {
            DataFrame::BaseDataFrame(f) => ID::BaseID(f.spec_id()),
            DataFrame::ExtendedDataFrame(f) => ID::ExtendedID(f.spec_id()),
        }
    }

    /// The declared payload length.
    pub open spec fn spec_dlc(&self) -> int {
        match *self {
            DataFrame::BaseDataFrame(f) => f.spec_dlc(),
            DataFrame::ExtendedDataFrame(f) => f.spec_dlc(),
        }
    }

    /// The full backing storage, 8 bytes.
    pub open spec fn spec_bytes(&self) -> Seq<u8> {
        match *self {
            DataFrame::BaseDataFrame(f) => f.spec_bytes(),
            DataFrame::ExtendedDataFrame(f) => f.spec_bytes(),
        }
    }

    /// The payload: the declared-length prefix of the backing storage.
    pub open spec fn payload(&self) -> Seq<u8> {
        self.spec_bytes().take(self.spec_dlc())
    }

    /// The length invariant of whichever kind of frame this is.
    pub open spec fn wf(&self) -> bool {
        match *self {
            DataFrame::BaseDataFrame(f) => f.wf(),
            DataFrame::ExtendedDataFrame(f) => f.wf(),
        }
    }

    /// Constructs a data frame of the kind matching the identifier, with
    /// zero length and zeroed backing storage.
    pub fn new(id: ID) -> (r: Self)
        ensures
            r.wf(),
            r.spec_id() == id,
            r.spec_dlc() == 0,
            r.spec_bytes() == Seq::new(8, |i: int| 0u8),
            r.payload() == Seq::<u8>::empty(),
            r is BaseDataFrame <==> id is BaseID,
    {
        match id {
            ID::BaseID(id) => DataFrame::BaseDataFrame(BaseDataFrame::new(id)),
            ID::ExtendedID(id) => DataFrame::ExtendedDataFrame(ExtendedDataFrame::new(id)),
        }
    }

    /// Declares the payload length. A length above 8 is a caller bug, ruled
    /// out by precondition. The backing bytes are left unchanged.
    pub fn set_data_length(&mut self, length: usize)
        requires
            length <= 8,
        ensures
            final(self).wf(),
            final(self).spec_id() == old(self).spec_id(),
            final(self).spec_dlc() == length,
            final(self).spec_bytes() == old(self).spec_bytes(),
    {
        match *self {
            DataFrame::BaseDataFrame(ref mut f) => f.set_data_length(length),
            DataFrame::ExtendedDataFrame(ref mut f) => f.set_data_length(length),
        }
    }

    /// Exposes exactly the declared-length prefix of the backing storage.
    pub fn data(&self) -> (r: &[u8])
        ensures
            r@ == self.payload(),
            r@.len() == self.spec_dlc(),
            r@.len() <= 8,
    {
        match *self {
            DataFrame::BaseDataFrame(ref f) => f.data(),
            DataFrame::ExtendedDataFrame(ref f) => f.data(),
        }
    }

    /// Exposes exactly the declared-length prefix of the backing storage for
    /// writing. The identifier, the declared length and the bytes beyond it
    /// are unaffected by whatever the caller writes through the view.
    pub fn data_as_mut(&mut self) -> (r: &mut [u8])
        ensures
            r@ == old(self).payload(),
            r@.len() == old(self).spec_dlc(),
            r@.len() <= 8,
            final(self).wf(),
            final(self).spec_id() == old(self).spec_id(),
            final(self).spec_dlc() == old(self).spec_dlc(),
            final(self).spec_bytes() == final(r)@ + old(self).spec_bytes().skip(old(self).spec_dlc()),
    {
        match self {
            DataFrame::BaseDataFrame(f) => f.data_as_mut(),
            DataFrame::ExtendedDataFrame(f) => f.data_as_mut(),
        }
    }

    /// The identifier the frame is bound to, tagged by its kind.
    pub fn id(&self) -> (r: ID)
        ensures
            r == self.spec_id(),
            id_valid(r),
    {
        match *self {
            DataFrame::BaseDataFrame(f) => ID::BaseID(f.id()),
            DataFrame::ExtendedDataFrame(f) => ID::ExtendedID(f.id()),
        }
    }

    /// Payload round trip: once the writable view handed out by
    /// `data_as_mut` has ended up holding `written`, the frame's payload is
    /// exactly `written`, whose length is the declared length.
    pub proof fn lemma_data_as_mut_payload(pre: Self, post: Self, written: Seq<u8>)
        requires
            pre.wf(),
            post.wf(),
            post.spec_dlc() == pre.spec_dlc(),
            post.spec_bytes() == written + pre.spec_bytes().skip(pre.spec_dlc()),
        ensures
            written.len() == pre.spec_dlc(),
            post.payload() == written,
    {
        assert(post.payload() =~= written);
    }
}

/// A CAN2.0A remote frame: an 11-bit identifier and a requested length,
/// with no payload storage (remote frames request data, they do not carry
/// it).
#[derive(Clone, Copy, Debug, PartialEq, Eq, Structural)]
pub struct BaseRemoteFrame {
    id: BaseID,
    dlc: u8,
}

impl BaseRemoteFrame {
    /// The identifier the frame is bound to.
    pub closed spec fn spec_id(&self) -> BaseID {
        self.id
    }

    /// The requested data length.
    pub closed spec fn spec_dlc(&self) -> int {
        self.dlc as int
    }

    /// The length invariant: the requested length never exceeds 8. It
    /// holds of every frame value in existence: the constructor establishes
    /// it and every method preserves it.
    #[verifier::type_invariant]
    pub open spec fn wf(&self) -> bool {
        0 <= self.spec_dlc() <= 8
    }

    /// Constructs a remote frame bound to the given identifier, requesting
    /// zero bytes.
    pub fn new(id: BaseID) -> (r: Self)
        ensures
            r.wf(),
            r.spec_id() == id,
            r.spec_dlc() == 0,
    {
        Self { id: id, dlc: 0 }
    }

    /// Declares the requested length. A length above 8 is a caller bug,
    /// ruled out by precondition.
    pub fn set_data_length(&mut self, length: usize)
        requires
            length <= 8,
        ensures
            final(self).wf(),
            final(self).spec_id() == old(self).spec_id(),
            final(self).spec_dlc() == length,
    {
        self.dlc = length as u8;
    }

    /// The identifier the frame is bound to.
    pub fn id(&self) -> (r: BaseID)
        ensures
            r == self.spec_id(),
            base_id_valid(r@),
    {
        proof {
            use_type_invariant(&self.id);
        }
        self.id
    }
}

/// A CAN2.0B remote frame: a 29-bit identifier and a requested length,
/// with no payload storage.
#[derive(Clone, Copy, Debug, PartialEq, Eq, Structural)]
pub struct ExtendedRemoteFrame {
    id: ExtendedID,
    dlc: u8,
}

impl ExtendedRemoteFrame {
    /// The identifier the frame is bound to.
    pub closed spec fn spec_id(&self) -> ExtendedID {
        self.id
    }

    /// The requested data length.
    pub closed spec fn spec_dlc(&self) -> int {
        self.dlc as int
    }

    /// The length invariant: the requested length never exceeds 8. It
    /// holds of every frame value in existence: the constructor establishes
    /// it and every method preserves it.
    #[verifier::type_invariant]
    pub open spec fn wf(&self) -> bool {
        0 <= self.spec_dlc() <= 8
    }

    /// Constructs a remote frame bound to the given identifier, requesting
    /// zero bytes.
    pub fn new(id: ExtendedID) -> (r: Self)
        ensures
            r.wf(),
            r.spec_id() == id,
            r.spec_dlc() == 0,
    {
        Self { id: id, dlc: 0 }
    }

    /// Declares the requested length. A length above 8 is a caller bug,
    /// ruled out by precondition.
    pub fn set_data_length(&mut self, length: usize)
        requires
            length <= 8,
        ensures
            final(self).wf(),
            final(self).spec_id() == old(self).spec_id(),
            final(self).spec_dlc() == length,
    {
        self.dlc = length as u8;
    }

    /// The identifier the frame is bound to.
    pub fn id(&self) -> (r: ExtendedID)
        ensures
            r == self.spec_id(),
            extended_id_valid(r@),
    {
        proof {
            use_type_invariant(&self.id);
        }
        self.id
    }
}

/// A remote frame of either identifier kind.
pub enum RemoteFrame {
    /// A CAN2.0A remote frame
    BaseRemoteFrame(BaseRemoteFrame),
    /// A CAN2.0B remote frame
    ExtendedRemoteFrame(ExtendedRemoteFrame),
}

impl RemoteFrame {
    /// The identifier the frame is bound to, tagged by its kind.
    pub open spec fn spec_id(&self) -> ID {
        match *self {
            RemoteFrame::BaseRemoteFrame(f) => ID::BaseID(f.spec_id()),
            RemoteFrame::ExtendedRemoteFrame(f) => ID::ExtendedID(f.spec_id()),
        }
    }

    /// The requested data length.
    pub open spec fn spec_dlc(&self) -> int {
        match *self {
            RemoteFrame::BaseRemoteFrame(f) => f.spec_dlc(),
            RemoteFrame::ExtendedRemoteFrame(f) => f.spec_dlc(),
        }
    }

    /// The length invariant of whichever kind of frame this is.
    pub open spec fn wf(&self) -> bool {
        match *self {
            RemoteFrame::BaseRemoteFrame(f) => f.wf(),
            RemoteFrame::ExtendedRemoteFrame(f) => f.wf(),
        }
    }

    /// Constructs a remote frame of the kind matching the identifier,
    /// requesting zero bytes.
    pub fn new(id: ID) -> (r: Self)
        ensures
            r.wf(),
            r.spec_id() == id,
            r.spec_dlc() == 0,
            r is BaseRemoteFrame <==> id is BaseID,
    {
        match id {
            ID::BaseID(id) => RemoteFrame::BaseRemoteFrame(BaseRemoteFrame::new(id)),
            ID::ExtendedID(id) => RemoteFrame::ExtendedRemoteFrame(ExtendedRemoteFrame::new(id)),
        }
    }

    /// The identifier the frame is bound to, tagged by its kind.
    pub fn id(&self) -> (r: ID)
        ensures
            r == self.spec_id(),
            id_valid(r),
    {
        match *self {
            RemoteFrame::BaseRemoteFrame(f) => ID::BaseID(f.id()),
            RemoteFrame::ExtendedRemoteFrame(f) => ID::ExtendedID(f.id()),
        }
    }
}

/// The complete wire-frame abstraction a transport driver consumes or
/// produces: a data frame or a remote frame. A pure discriminated wrapper;
/// it adds no state.
pub enum CanFrame {
    DataFrame(DataFrame),
    RemoteFrame(RemoteFrame),
}

impl CanFrame {
    /// The identifier of whichever frame this is.
    pub open spec fn spec_id(&self) -> ID {
        match *self {
            CanFrame::DataFrame(f) => f.spec_id(),
            CanFrame::RemoteFrame(f) => f.spec_id(),
        }
    }

    /// The identifier of whichever frame this is.
    pub fn id(&self) -> (r: ID)
        ensures
            r == self.spec_id(),
            id_valid(r),
    {
        match *self {
            CanFrame::DataFrame(ref f) => f.id(),
            CanFrame::RemoteFrame(ref f) => f.id(),
        }
    }
}

// Conversion between these types

impl From<DataFrame> for CanFrame {
    fn from(f: DataFrame) -> (r: CanFrame) {
        CanFrame::DataFrame(f)
    }
}

impl vstd::std_specs::convert::FromSpecImpl<DataFrame> for CanFrame {
    open spec fn obeys_from_spec() -> bool {
        true
    }

    open spec fn from_spec(f: DataFrame) -> CanFrame {
        CanFrame::DataFrame(f)
    }
}

impl From<RemoteFrame> for CanFrame {
    fn from(f: RemoteFrame) -> (r: CanFrame) {
        CanFrame::RemoteFrame(f)
    }
}

impl vstd::std_specs::convert::FromSpecImpl<RemoteFrame> for CanFrame {
    open spec fn obeys_from_spec() -> bool {
        true
    }

    open spec fn from_spec(f: RemoteFrame) -> CanFrame {
        CanFrame::RemoteFrame(f)
    }
}

impl From<BaseDataFrame> for DataFrame {
    fn from(f: BaseDataFrame) -> (r: DataFrame) {
        DataFrame::BaseDataFrame(f)
    }
}

impl vstd::std_specs::convert::FromSpecImpl<BaseDataFrame> for DataFrame {
    open spec fn obeys_from_spec() -> bool {
        true
    }

    open spec fn from_spec(f: BaseDataFrame) -> DataFrame {
        DataFrame::BaseDataFrame(f)
    }
}

impl From<ExtendedDataFrame> for DataFrame {
    fn from(f: ExtendedDataFrame) -> (r: DataFrame) {
        DataFrame::ExtendedDataFrame(f)
    }
}

impl vstd::std_specs::convert::FromSpecImpl<ExtendedDataFrame> for DataFrame {
    open spec fn obeys_from_spec() -> bool {
        true
    }

    open spec fn from_spec(f: ExtendedDataFrame) -> DataFrame {
        DataFrame::ExtendedDataFrame(f)
    }
}

impl From<BaseRemoteFrame> for RemoteFrame {
    fn from(f: BaseRemoteFrame) -> (r: RemoteFrame) {
        RemoteFrame::BaseRemoteFrame(f)
    }
}

impl vstd::std_specs::convert::FromSpecImpl<BaseRemoteFrame> for RemoteFrame {
    open spec fn obeys_from_spec() -> bool {
        true
    }

    open spec fn from_spec(f: BaseRemoteFrame) -> RemoteFrame {
        RemoteFrame::BaseRemoteFrame(f)
    }
}

impl From<ExtendedRemoteFrame> for RemoteFrame {
    fn from(f: ExtendedRemoteFrame) -> (r: RemoteFrame) {
        RemoteFrame::ExtendedRemoteFrame(f)
    }
}

impl vstd::std_specs::convert::FromSpecImpl<ExtendedRemoteFrame> for RemoteFrame {
    open spec fn obeys_from_spec() -> bool {
        true
    }

    open spec fn from_spec(f: ExtendedRemoteFrame) -> RemoteFrame {
        RemoteFrame::ExtendedRemoteFrame(f)
    }
}

impl From<BaseDataFrame> for CanFrame {
    fn from(f: BaseDataFrame) -> (r: CanFrame) {
        CanFrame::from(DataFrame::from(f))
    }
}

impl vstd::std_specs::convert::FromSpecImpl<BaseDataFrame> for CanFrame {
    open spec fn obeys_from_spec() -> bool {
        true
    }

    open spec fn from_spec(f: BaseDataFrame) -> CanFrame {
        CanFrame::DataFrame(DataFrame::BaseDataFrame(f))
    }
}

impl From<ExtendedDataFrame> for CanFrame {
    fn from(f: ExtendedDataFrame) -> (r: CanFrame) {
        CanFrame::from(DataFrame::from(f))
    }
}

impl vstd::std_specs::convert::FromSpecImpl<ExtendedDataFrame> for CanFrame {
    open spec fn obeys_from_spec() -> bool {
        true
    }

    open spec fn from_spec(f: ExtendedDataFrame) -> CanFrame {
        CanFrame::DataFrame(DataFrame::ExtendedDataFrame(f))
    }
}

impl From<BaseRemoteFrame> for CanFrame {
    fn from(f: BaseRemoteFrame) -> (r: CanFrame) {
        CanFrame::from(RemoteFrame::from(f))
    }
}

impl vstd::std_specs::convert::FromSpecImpl<BaseRemoteFrame> for CanFrame {
    open spec fn obeys_from_spec() -> bool {
        true
    }

    open spec fn from_spec(f: BaseRemoteFrame) -> CanFrame {
        CanFrame::RemoteFrame(RemoteFrame::BaseRemoteFrame(f))
    }
}

impl From<ExtendedRemoteFrame> for CanFrame {
    fn from(f: ExtendedRemoteFrame) -> (r: CanFrame) {
        CanFrame::from(RemoteFrame::from(f))
    }
}

impl vstd::std_specs::convert::FromSpecImpl<ExtendedRemoteFrame> for CanFrame {
    open spec fn obeys_from_spec() -> bool {
        true
    }

    open spec fn from_spec(f: ExtendedRemoteFrame) -> CanFrame {
        CanFrame::RemoteFrame(RemoteFrame::ExtendedRemoteFrame(f))
    }
}

/// Identifier round trip: a base identifier constructed from a value within
/// the 11-bit range (which is exactly what `BaseID::new` ensures of its
/// result) converts back to that same value.
pub proof fn lemma_base_id_round_trip(v: u16, b: BaseID)
    requires
        base_id_valid(v),
        b@ == v,
    ensures
        <u16 as vstd::std_specs::convert::FromSpec<BaseID>>::from_spec(b) == v,
{
}

/// Identifier round trip: an extended identifier constructed from a value
/// within the 29-bit range (which is exactly what `ExtendedID::new` ensures
/// of its result) converts back to that same value.
pub proof fn lemma_extended_id_round_trip(v: u32, e: ExtendedID)
    requires
        extended_id_valid(v),
        e@ == v,
    ensures
        <u32 as vstd::std_specs::convert::FromSpec<ExtendedID>>::from_spec(e) == v,
{
}

/// On a well-formed frame the payload seen through `data` has exactly the
/// declared length, so setting the length to `n` exposes `n` bytes.
pub proof fn lemma_base_payload_length(f: BaseDataFrame)
    requires
        f.wf(),
    ensures
        f.payload().len() == f.spec_dlc(),
{
}

/// On a well-formed frame the payload seen through `data` has exactly the
/// declared length, so setting the length to `n` exposes `n` bytes.
pub proof fn lemma_extended_payload_length(f: ExtendedDataFrame)
    requires
        f.wf(),
    ensures
        f.payload().len() == f.spec_dlc(),
{
}

/// On a well-formed frame the payload seen through `data` has exactly the
/// declared length, so setting the length to `n` exposes `n` bytes.
pub proof fn lemma_payload_length(f: DataFrame)
    requires
        f.wf(),
    ensures
        f.payload().len() == f.spec_dlc(),
{
}

/// Widening an identifier to `u32` agrees with the underlying conversions:
/// on a base identifier it equals the `u16` value zero-extended, and on an
/// extended identifier it equals the `u32` value unchanged.
pub proof fn lemma_id_widening(id: ID)
    ensures
        id matches ID::BaseID(b) ==> id_to_u32(id)
            == <u16 as vstd::std_specs::convert::FromSpec<BaseID>>::from_spec(b) as u32,
        id matches ID::ExtendedID(e) ==> id_to_u32(id)
            == <u32 as vstd::std_specs::convert::FromSpec<ExtendedID>>::from_spec(e),
{
}

} // verus!
