//! The frame codec: the feature-access payload, the report envelope, and
//! their fixed-size wire encoding.

use vstd::prelude::*;
use vstd::slice::slice_subrange;
use vstd::std_specs::cmp::PartialEqSpec;

use crate::error::HidppError;

verus! {

/// Total wire length of a SHORT report.
pub const SHORT_LENGTH: u8 = 8;
/// Total wire length of a LONG report.
pub const LONG_LENGTH: u8 = 20;
/// Total wire length of a VERY_LONG report.
pub const VERY_LONG_MAX_LENGTH: u8 = 64;

pub const REPORT_ID_HIDPP_SHORT: u8 = 0x10;
pub const REPORT_ID_HIDPP_LONG: u8 = 0x11;
pub const REPORT_ID_HIDPP_VERY_LONG: u8 = 0x12;

/// Width at which payload parameters are stored, whatever wire length is
/// used later: the VERY_LONG total minus the four header bytes.
pub const FAP_PARAMS_WIDTH: usize = 60;

/// Client/software id stamped into the low nibble of every request this
/// client sends; deliberately not the id the kernel driver uses, and never
/// zero, which marks device-originated broadcasts.
pub const SW_ID: u8 = 0x02;

/// Mathematical model of a feature-access payload.
#[verifier::ext_equal]
pub ghost struct FapModel {
    pub feature_index: u8,
    pub funcindex_clientid: u8,
    pub params: Seq<u8>,
}

/// Mathematical model of a report envelope.
#[verifier::ext_equal]
pub ghost struct ReportModel {
    pub report_id: u8,
    pub device_index: u8,
    pub fap: FapModel,
}

/// Feature-access payload: which feature, which function and client, and
/// the parameter bytes, stored at fixed width with zeroed tail.
#[derive(Debug)]
pub struct Fap {
    pub feature_index: u8,
    pub funcindex_clientid: u8,
    pub params: Vec<u8>,
}

impl View for Fap {
    type V = FapModel;

    open spec fn view(&self) -> FapModel {
        FapModel {
            feature_index: self.feature_index,
            funcindex_clientid: self.funcindex_clientid,
            params: self.params@,
        }
    }
}

/// True of the low nibble a payload carries when some software client
/// stamped it; device broadcasts carry zero there.
pub open spec fn spec_has_sw_id(funcindex_clientid: u8) -> bool {
    funcindex_clientid & 0x0F != 0
}

impl Fap {
    /// The parameter store always has its full fixed width.
    pub open spec fn wf(&self) -> bool {
        self.params@.len() == FAP_PARAMS_WIDTH
    }

    /// True iff the payload carries a non-zero client id in its low nibble.
    pub fn has_sw_id(&self) -> (r: bool)
        ensures
            r == spec_has_sw_id(self.funcindex_clientid),
    {
        (self.funcindex_clientid & 0x0F) != 0x00
    }

    /// Serializes the payload into `buf`, truncating the stored parameters
    /// to the buffer's capacity.
    pub fn copy_into(&self, buf: &mut Vec<u8>)
        requires
            self.wf(),
            2 <= old(buf).len() <= 2 + FAP_PARAMS_WIDTH,
        ensures
            final(buf)@ == spec_fap_bytes(self@, old(buf).len() as int),
    {
        buf[0] = self.feature_index;
        buf[1] = self.funcindex_clientid;
        let n = buf.len();
        let mut i: usize = 2;
        while i < n
            invariant
                2 <= i <= n,
                buf.len() == n,
                self.wf(),
                n <= 2 + FAP_PARAMS_WIDTH,
                buf@[0] == self.feature_index,
                buf@[1] == self.funcindex_clientid,
                forall|j: int| 2 <= j < i ==> buf@[j] == self.params@[j - 2],
            decreases n - i,
        {
            buf[i] = self.params[i - 2];
            i += 1;
        }
        proof {
            assert(buf@ =~= spec_fap_bytes(self@, n as int));
        }
    }

    /// The parameter byte at `i`, reading past the stored width as zero.
    pub fn param_at(&self, i: usize) -> (r: u8)
        ensures
            r == byte_at(self.params@, i as int),
    {
        if i < self.params.len() {
            self.params[i]
        } else {
            0
        }
    }

    /// Reads a payload back out of raw bytes: the first two bytes are the
    /// header, everything after fills the parameter store, zero-padded.
    pub fn from_bytes(bs: &[u8]) -> (r: Fap)
        ensures
            r.wf(),
            r@ == spec_decoded_fap(bs@),
    {
        let feature_index = if bs.len() > 0 { bs[0] } else { 0 };
        let funcindex_clientid = if bs.len() > 1 { bs[1] } else { 0 };
        let mut params: Vec<u8> = Vec::new();
        let mut i: usize = 0;
        while i < FAP_PARAMS_WIDTH
            invariant
                i <= FAP_PARAMS_WIDTH,
                params@.len() == i,
                forall|j: int| 0 <= j < i ==> params@[j] == byte_at(bs@, 2 + j),
            decreases FAP_PARAMS_WIDTH - i,
        {
            if 2 + i < bs.len() {
                let b = bs[2 + i];
                params.push(b);
            } else {
                params.push(0);
            }
            i += 1;
        }
        let r = Fap { feature_index, funcindex_clientid, params };
        proof {
            assert(r@.params =~= spec_decoded_fap(bs@).params);
        }
        r
    }
}

impl Clone for Fap {
    fn clone(&self) -> (r: Self)
        ensures
            r@ == self@,
    {
        let mut params: Vec<u8> = Vec::new();
        let mut i: usize = 0;
        while i < self.params.len()
            invariant
                i <= self.params.len(),
                params@ == self.params@.take(i as int),
            decreases self.params.len() - i,
        {
            params.push(self.params[i]);
            i += 1;
        }
        proof {
            assert(params@ =~= self.params@);
        }
        Fap { feature_index: self.feature_index, funcindex_clientid: self.funcindex_clientid, params }
    }
}

impl PartialEq for Fap {
    fn eq(&self, other: &Fap) -> (r: bool) {
        let fields_eq = self.feature_index == other.feature_index && self.funcindex_clientid
            == other.funcindex_clientid;
        let params_eq = self.params == other.params;
        proof {
            if params_eq {
                assert(self.params@ =~= other.params@);
            }
            if self.params@ == other.params@ {
                assert(forall|i: int|
                    #![auto]
                    0 <= i < self.params@.len() ==> self.params@[i] == other.params@[i]);
            }
        }
        fields_eq && params_eq
    }
}

impl vstd::std_specs::cmp::PartialEqSpecImpl for Fap {
    open spec fn obeys_eq_spec() -> bool {
        true
    }

    open spec fn eq_spec(&self, other: &Fap) -> bool {
        self.feature_index == other.feature_index && self.funcindex_clientid
            == other.funcindex_clientid && self.params@ == other.params@
    }
}

impl Default for Fap {
    /// An all-zero payload with a full-width, zeroed parameter store.
    fn default() -> (r: Self)
        ensures
            r.wf(),
            r@ == spec_default_fap(),
    {
        let params: Vec<u8> = vec![0u8; FAP_PARAMS_WIDTH];
        proof {
            assert(params@ =~= spec_default_fap().params);
        }
        Fap { feature_index: 0, funcindex_clientid: 0, params }
    }
}

/// The all-zero payload.
pub open spec fn spec_default_fap() -> FapModel {
    FapModel { feature_index: 0, funcindex_clientid: 0, params: Seq::new(FAP_PARAMS_WIDTH as nat, |i: int| 0u8) }
}

/// Step-by-step construction of an outbound payload. Remembers how many
/// parameter bytes the caller actually supplied, which later selects the
/// report length.
pub struct FapBuilder {
    pub built: Fap,
    pub copied_len: usize,
}

impl FapBuilder {
    pub open spec fn wf(&self) -> bool {
        self.built.wf() && self.copied_len <= FAP_PARAMS_WIDTH
    }

    pub fn new() -> (r: Self)
        ensures
            r.wf(),
            r.built@ == spec_default_fap(),
            r.copied_len == 0,
    {
        FapBuilder { built: Fap::default(), copied_len: 0 }
    }

    /// How many parameter bytes the caller has supplied so far.
    pub fn copied_params_len(&self) -> (r: usize)
        ensures
            r == self.copied_len,
    {
        self.copied_len
    }

    pub fn feature_index(self, value: u8) -> (r: Self)
        ensures
            r.built@ == (FapModel { feature_index: value, ..self.built@ }),
            r.copied_len == self.copied_len,
    {
        let mut b = self;
        b.built.feature_index = value;
        b
    }

    /// Sets the function in the high nibble and stamps this client's id in
    /// the low nibble.
    pub fn funcindex(self, value: u8) -> (r: Self)
        requires
            value < 16,
        ensures
            r.built@ == (FapModel {
                funcindex_clientid: (((value as u8) << 4u8) | SW_ID) as u8,
                ..self.built@
            }),
            r.copied_len == self.copied_len,
    {
        let mut b = self;
        b.built.funcindex_clientid = (value << 4) | SW_ID;
        b
    }

    /// Copies the caller's parameter bytes into the front of the parameter
    /// store and records their count.
    pub fn params(self, value: &[u8]) -> (r: Self)
        requires
            self.wf(),
            value@.len() <= FAP_PARAMS_WIDTH,
        ensures
            r.wf(),
            r.copied_len == value@.len(),
            r.built@ == (FapModel {
                params: value@ + self.built@.params.skip(value@.len() as int),
                ..self.built@
            }),
    {
        let mut b = self;
        b.copied_len = value.len();
        let n = value.len();
        let mut i: usize = 0;
        while i < n
            invariant
                i <= n,
                n == value@.len(),
                b.copied_len == n,
                n <= b.built.params@.len(),
                b.built.params@.len() == FAP_PARAMS_WIDTH,
                b.built.feature_index == self.built.feature_index,
                b.built.funcindex_clientid == self.built.funcindex_clientid,
                forall|j: int| 0 <= j < i ==> b.built.params@[j] == value@[j],
                forall|j: int| i <= j < FAP_PARAMS_WIDTH ==> b.built.params@[j] == self.built.params@[j],
            decreases n - i,
        {
            b.built.params[i] = value[i];
            i += 1;
        }
        proof {
            assert(b.built@.params =~= value@ + self.built@.params.skip(value@.len() as int));
        }
        b
    }

    pub fn build(self) -> (r: Fap)
        ensures
            r@ == self.built@,
    {
        self.built
    }
}

/// The wire bytes of a payload serialized into a buffer of `n` bytes.
pub open spec fn spec_fap_bytes(fap: FapModel, n: int) -> Seq<u8> {
    seq![fap.feature_index, fap.funcindex_clientid] + fap.params.take(n - 2)
}

/// The wire bytes of a whole report of `n` bytes.
pub open spec fn spec_report_bytes(r: ReportModel, n: int) -> Seq<u8> {
    seq![r.report_id, r.device_index] + spec_fap_bytes(r.fap, n - 2)
}

/// The byte at `i`, reading past the end as zero-padding.
pub open spec fn byte_at(bytes: Seq<u8>, i: int) -> u8 {
    if 0 <= i < bytes.len() {
        bytes[i]
    } else {
        0
    }
}

/// The payload denoted by raw bytes: zero-padded out to the fixed width.
pub open spec fn spec_decoded_fap(bytes: Seq<u8>) -> FapModel {
    FapModel {
        feature_index: byte_at(bytes, 0),
        funcindex_clientid: byte_at(bytes, 1),
        params: Seq::new(FAP_PARAMS_WIDTH as nat, |i: int| byte_at(bytes, 2 + i)),
    }
}

/// The report denoted by raw bytes of length at least two.
pub open spec fn spec_decoded_report(bytes: Seq<u8>) -> ReportModel {
    ReportModel {
        report_id: byte_at(bytes, 0),
        device_index: byte_at(bytes, 1),
        fap: spec_decoded_fap(bytes.skip(2)),
    }
}

/// Report envelope: wire id, receiver address, payload.
#[derive(Debug)]
pub struct HidppReport {
    pub report_id: u8,
    pub device_index: u8,
    pub fap: Fap,
}

impl View for HidppReport {
    type V = ReportModel;

    open spec fn view(&self) -> ReportModel {
        ReportModel { report_id: self.report_id, device_index: self.device_index, fap: self.fap@ }
    }
}

impl HidppReport {
    pub open spec fn wf(&self) -> bool {
        self.fap.wf()
    }

    /// The report id owed to a payload whose caller supplied `copied_len`
    /// parameter bytes: more than LONG can carry selects VERY_LONG.
    pub open spec fn spec_report_id_for(copied_len: int) -> u8 {
        if copied_len > LONG_LENGTH - 4 {
            REPORT_ID_HIDPP_VERY_LONG
        } else {
            REPORT_ID_HIDPP_LONG
        }
    }

    /// Builds the outbound envelope: the report id follows from how many
    /// parameter bytes were supplied; the device index starts at zero and
    /// is overwritten by the transport.
    pub fn new(fap: FapBuilder) -> (r: Self)
        requires
            fap.wf(),
        ensures
            r.wf(),
            r.report_id == Self::spec_report_id_for(fap.copied_len as int),
            r.device_index == 0,
            r.fap@ == fap.built@,
    {
        let report_id = if fap.copied_params_len() > (LONG_LENGTH as usize - 4) {
            REPORT_ID_HIDPP_VERY_LONG
        } else {
            REPORT_ID_HIDPP_LONG
        };
        HidppReport { report_id, device_index: 0, fap: fap.build() }
    }

    /// True iff the payload carries a non-zero client id.
    pub fn has_sw_id(&self) -> (r: bool)
        ensures
            r == spec_has_sw_id(self.fap.funcindex_clientid),
    {
        self.fap.has_sw_id()
    }

    /// Serializes the whole report into `buf`, truncating the parameters to
    /// the buffer's capacity.
    pub fn copy_into(&self, buf: &mut Vec<u8>)
        requires
            self.wf(),
            4 <= old(buf).len() <= VERY_LONG_MAX_LENGTH,
        ensures
            final(buf)@ == spec_report_bytes(self@, old(buf).len() as int),
    {
        buf[0] = self.report_id;
        buf[1] = self.device_index;
        let n = buf.len();
        let mut i: usize = 2;
        while i < n
            invariant
                2 <= i <= n,
                buf.len() == n,
                self.wf(),
                4 <= n <= VERY_LONG_MAX_LENGTH,
                buf@[0] == self.report_id,
                buf@[1] == self.device_index,
                forall|j: int| 2 <= j < i ==> buf@[j] == spec_fap_bytes(self.fap@, n - 2)[j - 2],
            decreases n - i,
        {
            if i == 2 {
                buf[i] = self.fap.feature_index;
            } else if i == 3 {
                buf[i] = self.fap.funcindex_clientid;
            } else {
                buf[i] = self.fap.params[i - 4];
            }
            i += 1;
        }
        proof {
            assert(buf@ =~= spec_report_bytes(self@, n as int));
        }
    }

    /// The total wire length a report id implies.
    pub open spec fn spec_report_len(report_id: u8) -> int {
        if report_id == REPORT_ID_HIDPP_SHORT {
            SHORT_LENGTH as int
        } else if report_id == REPORT_ID_HIDPP_LONG {
            LONG_LENGTH as int
        } else {
            VERY_LONG_MAX_LENGTH as int
        }
    }

    /// Serializes the report into a fresh buffer of exactly the length its
    /// report id implies.
    pub fn encode(&self) -> (r: Vec<u8>)
        requires
            self.wf(),
            self.report_id == REPORT_ID_HIDPP_SHORT || self.report_id == REPORT_ID_HIDPP_LONG
                || self.report_id == REPORT_ID_HIDPP_VERY_LONG,
        ensures
            r@.len() == Self::spec_report_len(self.report_id),
            r@ == spec_report_bytes(self@, Self::spec_report_len(self.report_id)),
    {
        let len: usize = if self.report_id == REPORT_ID_HIDPP_SHORT {
            SHORT_LENGTH as usize
        } else if self.report_id == REPORT_ID_HIDPP_LONG {
            LONG_LENGTH as usize
        } else {
            VERY_LONG_MAX_LENGTH as usize
        };
        let mut buf: Vec<u8> = vec![0u8; len];
        self.copy_into(&mut buf);
        buf
    }

    /// Decodes raw inbound bytes. Any input of at least two bytes is
    /// accepted, short payloads are zero-padded; anything shorter is a
    /// framing error.
    pub fn from_bytes(bs: &[u8]) -> (r: Result<HidppReport, HidppError>)
        ensures
            bs@.len() >= 2 ==> (r matches Ok(rep) && rep.wf() && rep@ == spec_decoded_report(bs@)),
            bs@.len() < 2 ==> (r matches Err(e) && e == HidppError::BadReportSize),
    {
        if bs.len() < 2 {
            return Err(HidppError::BadReportSize);
        }
        let report_id = bs[0];
        let device_index = bs[1];
        let rest = slice_subrange(bs, 2, bs.len());
        let fap = Fap::from_bytes(rest);
        Ok(HidppReport { report_id, device_index, fap })
    }
}

impl Clone for HidppReport {
    fn clone(&self) -> (r: Self)
        ensures
            r@ == self@,
    {
        HidppReport {
            report_id: self.report_id,
            device_index: self.device_index,
            fap: self.fap.clone(),
        }
    }
}

impl PartialEq for HidppReport {
    fn eq(&self, other: &HidppReport) -> (r: bool) {
        let r = self.report_id == other.report_id && self.device_index == other.device_index
            && self.fap == other.fap;
        proof {
            if self.fap@ == other.fap@ {
                assert(self.fap.eq_spec(&other.fap));
            }
            if self.fap.eq_spec(&other.fap) {
                assert(self.fap@ =~= other.fap@);
            }
        }
        r
    }
}

impl vstd::std_specs::cmp::PartialEqSpecImpl for HidppReport {
    open spec fn obeys_eq_spec() -> bool {
        true
    }

    open spec fn eq_spec(&self, other: &HidppReport) -> bool {
        self.report_id == other.report_id && self.device_index == other.device_index && self.fap@
            == other.fap@
    }
}

impl Default for HidppReport {
    /// An all-zero report with a well-formed payload.
    fn default() -> (r: Self)
        ensures
            r.wf(),
            r@ == (ReportModel { report_id: 0, device_index: 0, fap: spec_default_fap() }),
    {
        HidppReport { report_id: 0, device_index: 0, fap: Fap::default() }
    }
}

/// Report id selection: a payload of at most sixteen caller-supplied
/// parameter bytes goes out LONG, anything longer up to the full width
/// goes out VERY_LONG.
pub proof fn lemma_report_id_selection(copied_len: int)
    ensures
        0 <= copied_len <= 16 ==> HidppReport::spec_report_id_for(copied_len)
            == REPORT_ID_HIDPP_LONG,
        16 < copied_len <= FAP_PARAMS_WIDTH ==> HidppReport::spec_report_id_for(copied_len)
            == REPORT_ID_HIDPP_VERY_LONG,
{
}

/// Round trip at any of the supported wire lengths: decoding an encoded
/// report reproduces the header fields and the parameter bytes the wire
/// could carry, and pads everything behind them with zero.
pub proof fn lemma_codec_round_trip(r: ReportModel, n: int)
    requires
        r.fap.params.len() == FAP_PARAMS_WIDTH,
        4 <= n <= VERY_LONG_MAX_LENGTH,
    ensures
        spec_decoded_report(spec_report_bytes(r, n)).report_id == r.report_id,
        spec_decoded_report(spec_report_bytes(r, n)).device_index == r.device_index,
        spec_decoded_report(spec_report_bytes(r, n)).fap.feature_index == r.fap.feature_index,
        spec_decoded_report(spec_report_bytes(r, n)).fap.funcindex_clientid == r.fap.funcindex_clientid,
        spec_decoded_report(spec_report_bytes(r, n)).fap.params.len() == FAP_PARAMS_WIDTH,
        forall|i: int|
            0 <= i < n - 4 ==> spec_decoded_report(spec_report_bytes(r, n)).fap.params[i]
                == r.fap.params[i],
        forall|i: int|
            n - 4 <= i < FAP_PARAMS_WIDTH ==> spec_decoded_report(spec_report_bytes(r, n)).fap.params[i]
                == 0,
{
    let bytes = spec_report_bytes(r, n);
    assert(bytes.len() == n);
    assert(forall|i: int| 0 <= i < FAP_PARAMS_WIDTH ==> #[trigger] spec_decoded_report(
        bytes,
    ).fap.params[i] == byte_at(bytes.skip(2), 2 + i));
}

/// Exact round trip: a report whose stored parameters are zero from the
/// caller-supplied prefix on decodes back, from its own encoding, to the
/// very report it was.
pub proof fn lemma_codec_round_trip_exact(r: ReportModel, n: int, k: int)
    requires
        r.fap.params.len() == FAP_PARAMS_WIDTH,
        4 <= n <= VERY_LONG_MAX_LENGTH,
        0 <= k <= n - 4,
        forall|i: int| k <= i < FAP_PARAMS_WIDTH ==> r.fap.params[i] == 0,
    ensures
        spec_decoded_report(spec_report_bytes(r, n)) == r,
{
    lemma_codec_round_trip(r, n);
    assert(spec_decoded_report(spec_report_bytes(r, n)).fap.params =~= r.fap.params);
    assert(spec_decoded_report(spec_report_bytes(r, n)) =~~= r);
}

} // verus!
