use direct_storage::interface::{Guid, InterfaceId};
use windows_core::GUID;

fn all() -> [(InterfaceId, u128); 8] {
    [
        (InterfaceId::IDStorageFile, 0x5de95e7b_955a_4868_a73c_243b29f4b8da),
        (InterfaceId::IDStorageCustomDecompressionQueue, 0x97179b2f_2c21_49ca_8291_4e1bf4a160df),
        (InterfaceId::IDStorageCustomDecompressionQueue1, 0x0d47c6c9_e61a_4706_93b4_68bfe3f4aa4a),
        (InterfaceId::IDStorageFactory, 0x6924ea0c_c3cd_4826_b10a_f64f4ed927c1),
        (InterfaceId::IDStorageStatusArray, 0x82397587_7cd5_453b_a02e_31379bd64656),
        (InterfaceId::IDStorageQueue, 0xcfdbd83f_9e06_4fda_8ea5_69042137f49b),
        (InterfaceId::IDStorageQueue1, 0xdd2f482c_5eff_41e8_9c9e_d2374b278128),
        (InterfaceId::IDStorageCompressionCodec, 0x84ef5121_9b43_4d03_b5c1_cc34606b262d),
    ]
}

fn parts(guid: GUID) -> Guid {
    Guid { data1: guid.data1, data2: guid.data2, data3: guid.data3, data4: guid.data4 }
}

fn whole(guid: Guid) -> GUID {
    GUID::from_values(guid.data1, guid.data2, guid.data3, guid.data4)
}

#[test]
fn every_interface_has_its_identifier() {
    for (interface, iid) in all() {
        assert_eq!(whole(interface.IID()), GUID::from_u128(iid));
        assert_eq!(whole(interface.IID()).to_u128(), iid);
    }
}

#[test]
fn an_interface_matches_its_own_identifier_only() {
    for (interface, _) in all() {
        for (other, iid) in all() {
            assert_eq!(interface.matches(&parts(GUID::from_u128(iid))), interface == other);
        }
        assert!(!interface.matches(&parts(GUID::zeroed())));
    }
}

#[test]
fn one_differing_part_is_enough_not_to_match() {
    let own = InterfaceId::IDStorageQueue.IID();
    assert!(InterfaceId::IDStorageQueue.matches(&own));
    let mut other = own;
    other.data1 ^= 1;
    assert!(!InterfaceId::IDStorageQueue.matches(&other));
    let mut other = own;
    other.data2 ^= 0x8000;
    assert!(!InterfaceId::IDStorageQueue.matches(&other));
    let mut other = own;
    other.data3 ^= 1;
    assert!(!InterfaceId::IDStorageQueue.matches(&other));
    let mut other = own;
    other.data4[7] ^= 1;
    assert!(!InterfaceId::IDStorageQueue.matches(&other));
    let mut other = own;
    other.data4[0] ^= 0x80;
    assert!(!InterfaceId::IDStorageQueue.matches(&other));
}
