//! The simulated client device and the signing key derived from it.
use vstd::prelude::*;
use vstd::utf8::{encode_utf8, encode_utf8_decode_utf8};

verus! {

/// Operating-system version of a device.
#[derive(Clone, Debug, PartialEq, Eq)]
pub struct OSVersion {
    pub incremental: String,
    pub release: String,
    pub codename: String,
    pub sdk: u32,
}

/// Hardware and software fingerprint presented to the server. Every field
/// may be empty; none is absent.
#[derive(Clone, Debug, PartialEq, Eq)]
pub struct Device {
    pub display: String,
    pub product: String,
    pub device: String,
    pub board: String,
    pub model: String,
    pub finger_print: String,
    pub boot_id: String,
    pub proc_version: String,
    pub imei: String,
    pub brand: String,
    pub bootloader: String,
    pub base_band: String,
    pub version: OSVersion,
    pub sim_info: String,
    pub os_type: String,
    pub mac_address: String,
    pub ip_address: Vec<u8>,
    pub wifi_bssid: String,
    pub wifi_ssid: String,
    pub imsi_md5: Vec<u8>,
    pub android_id: String,
    pub apn: String,
    pub vendor_name: String,
    pub vendor_os_name: String,
}

/// The bytes of the text `|A8.2.7.27f6ea96`, which closes every ksid.
pub open spec fn ksid_suffix() -> Seq<u8> {
    seq![
        0x7cu8, 0x41u8, 0x38u8, 0x2eu8, 0x32u8, 0x2eu8, 0x37u8, 0x2eu8,
        0x32u8, 0x37u8, 0x66u8, 0x36u8, 0x65u8, 0x61u8, 0x39u8, 0x36u8,
    ]
}

/// The ksid of a device with this imei: `|`, the imei, then the suffix, as UTF-8.
pub open spec fn ksid_of(imei: Seq<char>) -> Seq<u8> {
    seq![0x7cu8] + encode_utf8(imei) + ksid_suffix()
}

impl Device {
    /// The signing key of this device.
    pub fn ksid(&self) -> (r: Vec<u8>)
        ensures
            r@ == ksid_of(self.imei@),
    {
        let mut out: Vec<u8> = Vec::new();
        out.push(0x7cu8);
        let mut imei = vstd::slice::slice_to_vec(self.imei.as_str().as_bytes());
        out.append(&mut imei);
        let mut suffix: Vec<u8> = vec![
            0x7cu8, 0x41u8, 0x38u8, 0x2eu8, 0x32u8, 0x2eu8, 0x37u8, 0x2eu8,
            0x32u8, 0x37u8, 0x66u8, 0x36u8, 0x65u8, 0x61u8, 0x39u8, 0x36u8,
        ];
        assert(suffix@ =~= ksid_suffix());
        out.append(&mut suffix);
        assert(out@ =~= ksid_of(self.imei@));
        out
    }
}

/// The ksid depends on the device through its imei alone: two devices that
/// agree on the imei, in particular two equal devices, have the same ksid.
pub proof fn lemma_ksid_deterministic(a: &Device, b: &Device)
    requires
        a.imei@ == b.imei@,
    ensures
        ksid_of(a.imei@) == ksid_of(b.imei@),
{
}

/// Devices with different imeis have different ksids.
pub proof fn lemma_ksid_separates_imei(a: &Device, b: &Device)
    requires
        a.imei@ != b.imei@,
    ensures
        ksid_of(a.imei@) != ksid_of(b.imei@),
{
    let ea = encode_utf8(a.imei@);
    let eb = encode_utf8(b.imei@);
    if ksid_of(a.imei@) == ksid_of(b.imei@) {
        let ka = ksid_of(a.imei@);
        assert(ka.len() == ea.len() + 17);
        assert(ea.len() == eb.len());
        assert(ea =~= ka.subrange(1, ea.len() + 1 as int));
        assert(eb =~= ksid_of(b.imei@).subrange(1, eb.len() + 1 as int));
        encode_utf8_decode_utf8(a.imei@);
        encode_utf8_decode_utf8(b.imei@);
    }
}

} // verus!
