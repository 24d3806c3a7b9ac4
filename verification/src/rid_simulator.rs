//! The beacon builder and transmitter state: the cached radio
//! interface names, the 802.11 sequence counter, and the packet
//! message counter.  Building a frame is pure byte assembly, fully
//! specified: a fixed 38-byte capture-metadata header followed by a
//! beacon management frame whose vendor-specific element carries
//! the encoded Remote-ID payload unmodified.  The raw send and the
//! interface discovery are the surrounding process's work; it hands
//! the interface names in and takes the finished frame out.

use vstd::bytes::{spec_u16_to_le_bytes, spec_u64_to_le_bytes, u16_to_le_bytes, u64_to_le_bytes};
use vstd::prelude::*;
use vstd::string::StrSliceExecFns;
use vstd::string::StringSliceAdditionalSpecFns;
use vstd::utf8::encode_utf8;

verus! {

/// Startup failure: the process's sole function needs a radio.
#[derive(Debug, Clone, Copy, PartialEq, Eq, Structural)]
pub enum StartupError {
    /// No enumerated interface name matched the radio allow-list.
    NoWifiDevice,
}

/// Capture-metadata header length in bytes.
pub const RADIOTAP_LEN: usize = 38;

/// The fixed channel announced in the DS parameter element.
pub const DS_CHANNEL: u8 = 6;

/// The per-process beacon builder and the radio it owns.
pub struct RidSimulator {
    /// The interface names kept at startup; sends always use the
    /// first one.
    pub wifi_devices: Vec<String>,
    /// The 802.11 sequence counter, stepped by 16 per beacon so
    /// the low nibble stays free for fragment numbers.
    pub sequence_counter: u16,
    /// The packet envelope's free-running message counter.
    pub message_counter: u8,
}

/// True when the needle occurs contiguously inside the haystack.
pub open spec fn contains_seq(h: Seq<u8>, n: Seq<u8>) -> bool {
    exists|i: int| 0 <= i <= h.len() - n.len() && #[trigger] h.subrange(i, i + n.len()) == n
}

/// The interface-name allow-list: the name must mention one of the
/// expected radio-adapter patterns.
pub open spec fn spec_is_radio_name(name: Seq<char>) -> bool {
    contains_seq(encode_utf8(name), seq![0x77u8, 0x6cu8, 0x78u8])  // "wlx"
        || contains_seq(
        encode_utf8(name),
        seq![0x77u8, 0x6cu8, 0x61u8, 0x6eu8, 0x31u8],  // "wlan1"
    ) || contains_seq(encode_utf8(name), seq![0x77u8, 0x6cu8, 0x70u8, 0x34u8])  // "wlp4"

}

/// Whether the needle matches the haystack at one given offset.
fn match_at(h: &[u8], n: &[u8], i: usize) -> (r: bool)
    requires
        i + n@.len() <= h@.len(),
    ensures
        r == (h@.subrange(i as int, i + n@.len()) == n@),
{
    let hay_len: usize = h.len();
    let mut j: usize = 0;
    while j < n.len()
        invariant
            j <= n@.len(),
            i + n@.len() <= h@.len(),
            h@.len() == hay_len,
            forall|k: int| 0 <= k < j ==> h@[i + k] == n@[k],
        decreases n@.len() - j,
    {
        if h[i + j] != n[j] {
            assert(h@.subrange(i as int, i + n@.len())[j as int] != n@[j as int]);
            return false;
        }
        j = j + 1;
    }
    proof {
        assert(h@.subrange(i as int, i + n@.len()) =~= n@);
    }
    true
}

/// Whether the needle occurs anywhere inside the haystack.
fn contains_bytes(h: &[u8], n: &[u8]) -> (r: bool)
    ensures
        r == contains_seq(h@, n@),
{
    if n.len() > h.len() {
        return false;
    }
    if n.len() == 0 {
        proof {
            assert(h@.subrange(0, 0 + n@.len() as int) =~= n@);
        }
        return true;
    }
    let hay_len: usize = h.len();
    let mut i: usize = 0;
    while i <= h.len() - n.len()
        invariant
            1 <= n@.len() <= h@.len(),
            h@.len() == hay_len,
            i <= h@.len() - n@.len() + 1,
            forall|k: int| 0 <= k < i ==> #[trigger] h@.subrange(k, k + n@.len()) != n@,
        decreases h@.len() - n@.len() + 1 - i,
    {
        if match_at(h, n, i) {
            return true;
        }
        i = i + 1;
    }
    false
}

/// The exec side of the allow-list test.
pub fn is_wifi_device_name(name: &str) -> (r: bool)
    ensures
        r == spec_is_radio_name(name@),
{
    let bytes: Vec<u8> = name.as_bytes_vec();
    let mut wlx: Vec<u8> = Vec::new();
    wlx.push(0x77);  // "wlx"
    wlx.push(0x6c);
    wlx.push(0x78);
    let mut wlan1: Vec<u8> = Vec::new();
    wlan1.push(0x77);  // "wlan1"
    wlan1.push(0x6c);
    wlan1.push(0x61);
    wlan1.push(0x6e);
    wlan1.push(0x31);
    let mut wlp4: Vec<u8> = Vec::new();
    wlp4.push(0x77);  // "wlp4"
    wlp4.push(0x6c);
    wlp4.push(0x70);
    wlp4.push(0x34);
    proof {
        assert(wlx@ =~= seq![0x77u8, 0x6cu8, 0x78u8]);
        assert(wlan1@ =~= seq![0x77u8, 0x6cu8, 0x61u8, 0x6eu8, 0x31u8]);
        assert(wlp4@ =~= seq![0x77u8, 0x6cu8, 0x70u8, 0x34u8]);
    }
    contains_bytes(bytes.as_slice(), wlx.as_slice()) || contains_bytes(
        bytes.as_slice(),
        wlan1.as_slice(),
    ) || contains_bytes(bytes.as_slice(), wlp4.as_slice())
}

/// The fixed 38-byte capture-metadata header in front of every
/// frame: version and length fields, three present-field bitmasks,
/// the live microsecond timestamp, and fixed flag, data-rate,
/// channel and antenna-signal sample values.
pub open spec fn spec_radiotap_header(timestamp_micros: u64) -> Seq<u8> {
    seq![0u8, 0u8, 38u8, 0u8]  // version, pad, header length little-endian
     + seq![0x2fu8, 0x40u8, 0x00u8, 0xa0u8]  // present bitmask 0xa000402f
     + seq![0x20u8, 0x08u8, 0x00u8, 0xa0u8]  // present bitmask 0xa0000820
     + seq![0x20u8, 0x08u8, 0x00u8, 0x00u8]  // present bitmask 0x00000820
     + spec_u64_to_le_bytes(timestamp_micros) + seq![0x10u8, 0x0cu8]  // flags, data rate
     + seq![0x85u8, 0x09u8]  // channel frequency 2437 MHz little-endian
     + seq![0xc0u8, 0x00u8]  // channel flags
     + seq![0xc4u8, 0x00u8]  // antenna signal sample, reserved
     + seq![0x00u8, 0x00u8]  // receive flags
     + seq![0xc3u8, 0x00u8, 0xc4u8, 0x01u8]  // signal and antenna samples

}

/// The sequence-control bytes: the sequence number in the top 12
/// bits, the fragment number (always 0) in the low 4.
pub open spec fn spec_sequence_control(seqno: u16) -> Seq<u8> {
    spec_u16_to_le_bytes((seqno & 0x0fff) << 4)
}

/// The complete beacon management frame: the 24-byte management
/// header, the fixed-value beacon body, and the information
/// elements — the SSID, the DS parameter set, and exactly one
/// vendor-specific element whose data is the whole supplied
/// payload, unmodified and unsegmented.  The vendor element's
/// length byte counts the payload alone, not the identifier and
/// sub-type bytes in front of it — a quirk of this frame family
/// that receivers expect and that must not be corrected.
pub open spec fn spec_beacon_frame(
    ssid: Seq<u8>,
    payload: Seq<u8>,
    seqno: u16,
    timestamp_micros: u64,
) -> Seq<u8> {
    seq![0x80u8, 0x00u8]  // frame control: beacon subtype, management type, version 0
     + seq![0x00u8, 0x00u8]  // duration
     + seq![0xffu8, 0xffu8, 0xffu8, 0xffu8, 0xffu8, 0xffu8]  // broadcast destination
     + seq![0x00u8, 0xe0u8, 0x4bu8, 0xd3u8, 0xdeu8, 0xd6u8]  // source
     + seq![0x00u8, 0xe0u8, 0x4bu8, 0xd3u8, 0xdeu8, 0xd6u8]  // BSSID
     + spec_sequence_control(seqno) + spec_u64_to_le_bytes(timestamp_micros) + seq![
        0x64u8,
        0x00u8,
    ]  // beacon interval, 100 time units little-endian
     + seq![0x04u8, 0x11u8]  // capability bits 0x1104 little-endian
     + seq![0x00u8, ssid.len() as u8] + ssid  // SSID element
     + seq![0x03u8, 0x01u8, DS_CHANNEL]  // DS parameter element
     + seq![0xddu8, payload.len() as u8, 0xfau8, 0x0bu8, 0xbcu8, 0x0du8]
        + payload  // vendor-specific element: id 221, OUI, sub-type 13

}

impl RidSimulator {
    /// A fresh simulator: no radios yet, counters at their starting
    /// values.
    pub fn new() -> (r: Self)
        ensures
            r.wifi_devices@.len() == 0,
            r.sequence_counter == 0,
            r.message_counter == 1,
    {
        RidSimulator { wifi_devices: Vec::new(), sequence_counter: 0, message_counter: 1 }
    }

    /// Keep the enumerated interface names that match the radio
    /// allow-list.  Finding none is the fatal startup condition,
    /// returned as a typed error for the caller to act on: the
    /// process has no function without a radio.
    pub fn start_simulator(&mut self, names: Vec<String>) -> (r: Result<(), StartupError>)
        ensures
            final(self).wifi_devices@ == old(self).wifi_devices@ + names@.filter(
                |s: String| spec_is_radio_name(s@),
            ),
            final(self).sequence_counter == old(self).sequence_counter,
            final(self).message_counter == old(self).message_counter,
            r is Ok <==> final(self).wifi_devices@.len() > 0,
    {
        let ghost pred = |s: String| spec_is_radio_name(s@);
        let mut idx: usize = 0;
        while idx < names.len()
            invariant
                idx <= names@.len(),
                self.wifi_devices@ == old(self).wifi_devices@ + names@.take(idx as int).filter(
                    |s: String| spec_is_radio_name(s@),
                ),
                self.sequence_counter == old(self).sequence_counter,
                self.message_counter == old(self).message_counter,
            decreases names@.len() - idx,
        {
            let name: &String = &names[idx];
            proof {
                reveal(Seq::filter);
                assert(names@.take(idx + 1).drop_last() =~= names@.take(idx as int));
                assert(names@.take(idx + 1).last() == names@[idx as int]);
            }
            if is_wifi_device_name(name.as_str()) {
                self.wifi_devices.push(name.clone());
            }
            idx = idx + 1;
        }
        proof {
            assert(names@.take(names@.len() as int) =~= names@);
        }
        if self.wifi_devices.len() == 0 {
            Err(StartupError::NoWifiDevice)
        } else {
            Ok(())
        }
    }

    /// Serialize the capture-metadata header for one frame at the
    /// given microsecond timestamp.
    pub fn build_radiotap_header(&self, timestamp_micros: u64) -> (r: Vec<u8>)
        ensures
            r@ == spec_radiotap_header(timestamp_micros),
            r@.len() == RADIOTAP_LEN,
    {
        let mut bytes: Vec<u8> = Vec::new();
        bytes.push(0);  // header version
        bytes.push(0);  // padding
        bytes.push(38);  // header length little-endian
        bytes.push(0);
        bytes.push(0x2f);  // present bitmask 0xa000402f little-endian
        bytes.push(0x40);
        bytes.push(0x00);
        bytes.push(0xa0);
        bytes.push(0x20);  // present bitmask 0xa0000820 little-endian
        bytes.push(0x08);
        bytes.push(0x00);
        bytes.push(0xa0);
        bytes.push(0x20);  // present bitmask 0x00000820 little-endian
        bytes.push(0x08);
        bytes.push(0x00);
        bytes.push(0x00);
        let mut stamp: Vec<u8> = u64_to_le_bytes(timestamp_micros);
        bytes.append(&mut stamp);
        bytes.push(0x10);  // flags
        bytes.push(0x0c);  // data rate
        bytes.push(0x85);  // channel frequency 2437 MHz little-endian
        bytes.push(0x09);
        bytes.push(0xc0);  // channel flags
        bytes.push(0x00);
        bytes.push(0xc4);  // antenna signal sample
        bytes.push(0x00);  // reserved
        bytes.push(0x00);  // receive flags
        bytes.push(0x00);
        bytes.push(0xc3);  // antenna signal sample
        bytes.push(0x00);  // antenna index
        bytes.push(0xc4);  // antenna signal sample
        bytes.push(0x01);  // antenna index
        proof {
            assert(bytes@ =~= spec_radiotap_header(timestamp_micros));
        }
        bytes
    }

    /// Build one beacon frame carrying the payload, and step the
    /// sequence counter by 16 modulo 65536 — the next beacon built
    /// by this process carries a sequence number exactly 16 above
    /// this one's.
    #[verifier::rlimit(50)]
    pub fn build_rid_beacon(&mut self, ssid: &str, rid_data: &[u8], timestamp_micros: u64) -> (r:
        Vec<u8>)
        requires
            old(self).ssid_fits(ssid@),
            rid_data@.len() <= 255,
        ensures
            r@ == spec_beacon_frame(
                ssid.spec_bytes(),
                rid_data@,
                old(self).sequence_counter,
                timestamp_micros,
            ),
            final(self).sequence_counter as int == (old(self).sequence_counter as int + 16)
                % 65536,
            final(self).wifi_devices@ == old(self).wifi_devices@,
            final(self).message_counter == old(self).message_counter,
    {
        let seqno: u16 = self.sequence_counter;
        self.sequence_counter = if seqno <= 0xffef {
            seqno + 16
        } else {
            seqno - 0xfff0
        };
        let mut bytes: Vec<u8> = Vec::new();
        bytes.push(0x80);  // frame control: beacon subtype, management type, version 0
        bytes.push(0x00);
        bytes.push(0x00);  // duration
        bytes.push(0x00);
        let mut k: usize = 0;
        while k < 6
            invariant
                k <= 6,
                bytes@ =~= seq![0x80u8, 0x00u8, 0x00u8, 0x00u8] + Seq::new(
                    k as nat,
                    |i: int| 0xffu8,
                ),
            decreases 6 - k,
        {
            bytes.push(0xff);  // broadcast destination
            k = k + 1;
        }
        bytes.push(0x00);  // source
        bytes.push(0xe0);
        bytes.push(0x4b);
        bytes.push(0xd3);
        bytes.push(0xde);
        bytes.push(0xd6);
        bytes.push(0x00);  // BSSID
        bytes.push(0xe0);
        bytes.push(0x4b);
        bytes.push(0xd3);
        bytes.push(0xde);
        bytes.push(0xd6);
        let mut seq_ctl: Vec<u8> = u16_to_le_bytes((seqno & 0x0fff) << 4);
        bytes.append(&mut seq_ctl);
        let mut stamp: Vec<u8> = u64_to_le_bytes(timestamp_micros);
        bytes.append(&mut stamp);
        bytes.push(0x64);  // beacon interval, 100 time units little-endian
        bytes.push(0x00);
        bytes.push(0x04);  // capability bits 0x1104 little-endian
        bytes.push(0x11);
        let mut ssid_bytes: Vec<u8> = ssid.as_bytes_vec();
        bytes.push(0x00);  // SSID element
        bytes.push(ssid_bytes.len() as u8);
        bytes.append(&mut ssid_bytes);
        bytes.push(0x03);  // DS parameter element
        bytes.push(0x01);
        bytes.push(DS_CHANNEL);
        bytes.push(0xdd);  // vendor-specific element
        bytes.push(rid_data.len() as u8);
        bytes.push(0xfa);  // organizationally-unique identifier
        bytes.push(0x0b);
        bytes.push(0xbc);
        bytes.push(0x0d);  // vendor sub-type
        let ghost before_payload = bytes@;
        bytes.extend_from_slice(rid_data);
        proof {
            assert(bytes@ =~= before_payload + rid_data@);
            assert(bytes@ =~= spec_beacon_frame(
                ssid.spec_bytes(),
                rid_data@,
                seqno,
                timestamp_micros,
            ));
        }
        bytes
    }

    /// Whether the derived network name fits the single length byte
    /// of its information element.
    pub open spec fn ssid_fits(self, ssid: Seq<char>) -> bool {
        encode_utf8(ssid).len() <= 255
    }

    /// Build one complete transmit-ready frame: the capture
    /// metadata header followed by the beacon frame.
    pub fn build_rid_frame(&mut self, ssid: &str, rid_data: &[u8], timestamp_micros: u64) -> (r:
        Vec<u8>)
        requires
            old(self).ssid_fits(ssid@),
            rid_data@.len() <= 255,
        ensures
            r@ == spec_radiotap_header(timestamp_micros) + spec_beacon_frame(
                ssid.spec_bytes(),
                rid_data@,
                old(self).sequence_counter,
                timestamp_micros,
            ),
            final(self).sequence_counter as int == (old(self).sequence_counter as int + 16)
                % 65536,
            final(self).wifi_devices@ == old(self).wifi_devices@,
            final(self).message_counter == old(self).message_counter,
    {
        let mut frame: Vec<u8> = self.build_radiotap_header(timestamp_micros);
        let mut beacon: Vec<u8> = self.build_rid_beacon(ssid, rid_data, timestamp_micros);
        frame.append(&mut beacon);
        frame
    }

    /// Hand out the current packet message counter and step it,
    /// wrapping at 256: the live counter that overwrites a stored
    /// envelope field before an encode.
    pub fn next_message_counter(&mut self) -> (r: u8)
        ensures
            r == old(self).message_counter,
            final(self).message_counter as int == (old(self).message_counter as int + 1) % 256,
            final(self).wifi_devices@ == old(self).wifi_devices@,
            final(self).sequence_counter == old(self).sequence_counter,
    {
        let current: u8 = self.message_counter;
        self.message_counter = if current < 255 {
            current + 1
        } else {
            0
        };
        current
    }
}

} // verus!
