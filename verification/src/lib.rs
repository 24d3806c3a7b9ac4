//! A verified core for a Remote-ID beacon simulator.
//!
//! The crate turns one inbound telemetry packet into one checksummed,
//! fully framed 802.11 beacon: a bit-exact binary codec for the
//! Remote-ID message family, a beacon/capture-header frame builder,
//! and the connection-manager state machine (reconnect backoff and
//! rate limiting) that drives the pipeline.  All byte layouts and
//! state transitions are stated as contracts and proved.

pub mod message;
pub mod mqtt_manager;
pub mod rid_simulator;

use vstd::prelude::*;
use vstd::string::StrSliceExecFns;
use vstd::utf8::encode_utf8;

use crate::message::message::Message;
use crate::message::packet_message::{spec_packet_encode, PacketMessage};
use crate::message::system_message::SystemMessage;
use crate::rid_simulator::{spec_beacon_frame, spec_radiotap_header, RidSimulator};

verus! {

/// Why an accepted, well-formed packet still produced no frame.
#[derive(Debug, Clone, Copy, PartialEq, Eq, Structural)]
pub enum HandleError {
    /// The derived network name does not fit the single length
    /// byte of its information element; the frame is not built.
    SsidTooLong,
}

/// Append one status line to the log sink that the surrounding
/// process drains towards its user interface.
pub fn send_log_to_frontend(log: &mut Vec<String>, message: String)
    ensures
        final(log)@ == old(log)@.push(message),
{
    log.push(message);
}

/// Turn one accepted inbound packet into one transmit-ready frame.
///
/// Live values win: the packet's message counter and its system
/// message's timestamp are overwritten from the process-wide
/// counter and the caller's clock before encoding, whatever the
/// inbound packet carried.  The frame is the capture-metadata
/// header followed by a beacon whose network name derives from the
/// packet and whose vendor element carries the freshly encoded
/// packet bytes, unmodified.
pub fn handle_publish_packet(
    sim: &mut RidSimulator,
    packet: &mut PacketMessage,
    now_secs: u32,
    now_micros: u64,
) -> (r: Result<Vec<u8>, HandleError>)
    ensures
        r is Err <==> encode_utf8("RID-"@ + old(packet).base_message.uas_id@).len() > 255,
        r is Err ==> *final(packet) == *old(packet) && *final(sim) == *old(sim),
        r is Ok ==> *final(packet) == (PacketMessage {
            message_counter: old(sim).message_counter,
            system_message: (SystemMessage {
                timestamp: now_secs,
                ..old(packet).system_message
            }),
            ..*old(packet)
        }),
        r is Ok ==> final(sim).sequence_counter as int == (old(sim).sequence_counter as int + 16)
            % 65536 && final(sim).message_counter as int == (old(sim).message_counter as int + 1)
            % 256 && final(sim).wifi_devices@ == old(sim).wifi_devices@,
        r matches Ok(f) ==> f@ == spec_radiotap_header(now_micros) + spec_beacon_frame(
            encode_utf8("RID-"@ + old(packet).base_message.uas_id@),
            spec_packet_encode(*final(packet)),
            old(sim).sequence_counter,
            now_micros,
        ),
{
    let ssid: String = packet.get_ssid();
    let ssid_bytes: Vec<u8> = ssid.as_str().as_bytes_vec();
    if ssid_bytes.len() > 255 {
        return Err(HandleError::SsidTooLong);
    }
    let counter: u8 = sim.next_message_counter();
    packet.message_counter = counter;
    packet.system_message.timestamp = now_secs;
    let payload: Vec<u8> = packet.encode();
    let frame: Vec<u8> = sim.build_rid_frame(ssid.as_str(), payload.as_slice(), now_micros);
    Ok(frame)
}

} // verus!
