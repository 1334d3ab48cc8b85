//! What the device broadcasts while it waits for the host: its flags, the
//! battery service that it offers, its name, and the media service that it
//! asks a host to offer.

use vstd::prelude::*;

verus! {

/// Type of the record that holds the flags.
pub const AD_TYPE_FLAGS: u8 = 0x01;

/// Type of the record that lists all services with a short identifier.
pub const AD_TYPE_16BIT_SERVICE_UUID_COMPLETE: u8 = 0x03;

/// Type of the record that holds the whole name.
pub const AD_TYPE_COMPLETE_LOCAL_NAME: u8 = 0x09;

/// Type of the record that names the services asked of the host.
pub const AD_TYPE_SOLICITED_SERVICE_UUIDS_128BIT: u8 = 0x15;

/// Flags of a device that can be found by anyone and speaks low energy only.
pub const ADV_FLAGS_LE_ONLY_GENERAL_DISC_MODE: u8 = 0x06;

/// Short identifier of the battery service.
pub const BATTERY_SERVICE: u16 = 0x180f;

/// Short identifier of the battery level.
pub const BATTERY_LEVEL: u16 = 0x2a19;

/// The identifier of the media service of the host, as it is written.
pub open spec fn media_service_uuid() -> Seq<u8> {
    seq![
        0x89u8,
        0xD3u8,
        0x50u8,
        0x2Bu8,
        0x0Fu8,
        0x36u8,
        0x43u8,
        0x3Au8,
        0x8Eu8,
        0xF4u8,
        0xC5u8,
        0x02u8,
        0xADu8,
        0x55u8,
        0xF8u8,
        0xDCu8,
    ]
}

/// Whether `bytes` is a run of records, each a length, a type, and as many
/// bytes of data as the length says beyond the type.
pub open spec fn is_record_run(bytes: Seq<u8>) -> bool
    decreases bytes.len(),
{
    bytes.len() == 0 || {
        &&& bytes[0] >= 1
        &&& bytes[0] < bytes.len()
        &&& is_record_run(bytes.skip(bytes[0] + 1))
    }
}

/// One record: its length, its type, and its data.
pub open spec fn record(ad_type: u8, data: Seq<u8>) -> Seq<u8> {
    seq![(data.len() + 1) as u8, ad_type] + data
}

/// The records that are broadcast: the flags, the battery service, and the
/// short name.
pub open spec fn advertisement_records() -> Seq<Seq<u8>> {
    seq![
        record(AD_TYPE_FLAGS, seq![ADV_FLAGS_LE_ONLY_GENERAL_DISC_MODE]),
        record(
            AD_TYPE_16BIT_SERVICE_UUID_COMPLETE,
            seq![(BATTERY_SERVICE % 256) as u8, (BATTERY_SERVICE / 256) as u8],
        ),
        record(AD_TYPE_COMPLETE_LOCAL_NAME, seq![80u8, 73u8, 78u8, 69u8]),
    ]
}

/// What is broadcast.
pub open spec fn advertisement() -> Seq<u8> {
    concat_records(advertisement_records())
}

/// The record that is answered to a scan: the media service that is asked
/// of the host, its identifier with the last byte first.
pub open spec fn scan_response_records() -> Seq<Seq<u8>> {
    seq![record(AD_TYPE_SOLICITED_SERVICE_UUIDS_128BIT, media_service_uuid().reverse())]
}

/// What is answered to a scan.
pub open spec fn scan_response() -> Seq<u8> {
    concat_records(scan_response_records())
}

/// The bytes to broadcast.
pub fn adv_data() -> (data: [u8; 13])
    ensures
        data@ == advertisement(),
        is_record_run(data@),
{
    let data: [u8; 13] = [
        0x02,
        AD_TYPE_FLAGS,
        ADV_FLAGS_LE_ONLY_GENERAL_DISC_MODE,
        0x03,
        AD_TYPE_16BIT_SERVICE_UUID_COMPLETE,
        0x0F,
        0x18,
        0x05,
        AD_TYPE_COMPLETE_LOCAL_NAME,
        80,
        73,
        78,
        69,
    ];
    proof {
        reveal_with_fuel(concat_records, 4);
        assert(data@ =~= advertisement());
        lemma_records_run(advertisement_records());
    }
    data
}

/// The bytes to answer a scan with.
pub fn scan_data() -> (data: [u8; 18])
    ensures
        data@ == scan_response(),
        is_record_run(data@),
{
    let data: [u8; 18] = [
        0x11,
        AD_TYPE_SOLICITED_SERVICE_UUIDS_128BIT,
        0xDC,
        0xF8,
        0x55,
        0xAD,
        0x02,
        0xC5,
        0xF4,
        0x8E,
        0x3A,
        0x43,
        0x36,
        0x0F,
        0x2B,
        0x50,
        0xD3,
        0x89,
    ];
    proof {
        reveal_with_fuel(concat_records, 2);
        assert(data@ =~= scan_response());
        lemma_records_run(scan_response_records());
    }
    data
}

/// The records of `records`, one after the other.
pub open spec fn concat_records(records: Seq<Seq<u8>>) -> Seq<u8>
    decreases records.len(),
{
    if records.len() == 0 {
        Seq::<u8>::empty()
    } else {
        records[0] + concat_records(records.skip(1))
    }
}

/// Records whose length byte counts their type and their data, put one
/// after the other, make a run of records.
pub proof fn lemma_records_run(records: Seq<Seq<u8>>)
    requires
        forall|i: int|
            0 <= i < records.len() ==> {
                &&& (#[trigger] records[i]).len() >= 2
                &&& records[i][0] + 1 == records[i].len()
            },
    ensures
        is_record_run(concat_records(records)),
    decreases records.len(),
{
    if records.len() > 0 {
        let first = records[0];
        let rest = records.skip(1);
        assert forall|i: int| 0 <= i < rest.len() implies {
            &&& (#[trigger] rest[i]).len() >= 2
            &&& rest[i][0] + 1 == rest[i].len()
        } by {
            assert(rest[i] == records[i + 1]);
        }
        lemma_records_run(rest);
        let all = concat_records(records);
        assert(all[0] == first[0]);
        assert(all.skip(first[0] + 1) =~= concat_records(rest));
    }
}

} // verus!
