use contract_for_fuzz::word::FakeVal;
use soroban_env_common::Val;

#[test]
fn word_round_trip_keeps_bits() {
    for x in [0u64, 4, 0x3_0000_0004, 0x48, u64::MAX, 0x7f, 0x1234_5678_9abc_def0] {
        let w = FakeVal(x);
        let v = w.to_val();
        assert_eq!(v.get_payload(), x);
        assert_eq!(FakeVal::from_val(v), w);
    }
}

#[test]
fn value_word_of_host_value() {
    let v = Val::from_payload(0x0000_0009_0000_0004);
    assert_eq!(FakeVal::from_val(v), FakeVal(0x0000_0009_0000_0004));
    let back = FakeVal::from_val(v).to_val();
    assert_eq!(back.get_payload(), v.get_payload());
}
