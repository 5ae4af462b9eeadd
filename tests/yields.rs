use yield_aggregator::primitives::{Address, U256};
use yield_aggregator::registry::{Error, YieldAggregator};
use yield_aggregator::yields::{mock_yield, sum_yields};

fn addr(first: u8, last: u8) -> Address {
    let mut b = [0u8; 20];
    b[0] = first;
    b[19] = last;
    Address(b)
}

fn owner() -> Address {
    addr(0xAA, 0x01)
}

fn max() -> U256 {
    U256 { limbs: [u64::MAX; 4] }
}

#[test]
fn total_with_injected_yields() {
    let mut a = YieldAggregator::constructor(owner()).unwrap();
    let p1 = addr(0x10, 0x03);
    let p2 = addr(0x20, 0x04);
    a.add_protocol(owner(), p1).unwrap();
    a.add_protocol(owner(), p2).unwrap();
    let lookup = |p: &Address| if *p == p1 { U256::from_u64(5) } else { U256::from_u64(8) };
    let yields: Vec<U256> = a.get_protocols().iter().map(lookup).collect();
    assert_eq!(sum_yields(&yields), Ok(U256::from_u64(13)));
}

#[test]
fn empty_registry_total_is_zero() {
    let a = YieldAggregator::constructor(owner()).unwrap();
    assert_eq!(a.get_total_yield(addr(0x01, 0x01)), Ok(U256::zero()));
    assert_eq!(sum_yields(&Vec::new()), Ok(U256::zero()));
}

#[test]
fn mock_yield_depends_on_last_four_bytes() {
    let user = addr(0x01, 0x01);
    assert_eq!(mock_yield(addr(0x00, 0x03), user), U256::from_u64(5_000_000_000_000_000));
    assert_eq!(mock_yield(addr(0x00, 0x04), user), U256::from_u64(8_000_000_000_000_000));
    assert_eq!(mock_yield(addr(0x00, 0x05), user), U256::from_u64(3_000_000_000_000_000));
    // 0x01000000 % 3 == 1
    let mut b = [0u8; 20];
    b[16] = 0x01;
    assert_eq!(mock_yield(Address(b), user), U256::from_u64(8_000_000_000_000_000));
    // the first sixteen bytes and the user do not matter
    assert_eq!(mock_yield(addr(0xFF, 0x03), addr(0x02, 0x09)), U256::from_u64(5_000_000_000_000_000));
}

#[test]
fn total_yield_sums_the_registry_in_order() {
    let mut a = YieldAggregator::constructor(owner()).unwrap();
    a.add_protocol(owner(), addr(0x10, 0x03)).unwrap();
    a.add_protocol(owner(), addr(0x20, 0x04)).unwrap();
    a.add_protocol(owner(), addr(0x30, 0x05)).unwrap();
    assert_eq!(
        a.get_total_yield(addr(0x01, 0x01)),
        Ok(U256::from_u64(16_000_000_000_000_000))
    );
    a.remove_protocol(owner(), addr(0x20, 0x04)).unwrap();
    assert_eq!(
        a.get_total_yield(addr(0x01, 0x01)),
        Ok(U256::from_u64(8_000_000_000_000_000))
    );
}

#[test]
fn sum_overflow_fails_instead_of_wrapping() {
    assert_eq!(sum_yields(&vec![max(), U256::from_u64(1)]), Err(Error::ArithmeticOverflow));
    assert_eq!(
        sum_yields(&vec![U256::from_u64(1), max(), U256::zero()]),
        Err(Error::ArithmeticOverflow)
    );
}

#[test]
fn sum_up_to_the_maximum_succeeds() {
    let almost = U256 { limbs: [u64::MAX - 1, u64::MAX, u64::MAX, u64::MAX] };
    assert_eq!(sum_yields(&vec![almost, U256::from_u64(1)]), Ok(max()));
    assert_eq!(sum_yields(&vec![max()]), Ok(max()));
}

#[test]
fn checked_add_carries_between_limbs() {
    let a = U256 { limbs: [u64::MAX, 0, 0, 0] };
    assert_eq!(a.checked_add(U256::from_u64(1)), Some(U256 { limbs: [0, 1, 0, 0] }));
    assert_eq!(U256::from_u64(2).checked_add(U256::from_u64(3)), Some(U256::from_u64(5)));
    assert_eq!(max().checked_add(U256::from_u64(1)), None);
}
