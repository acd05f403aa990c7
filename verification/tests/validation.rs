use rodbus::constants::limits::{
    MAX_READ_COILS_COUNT, MAX_READ_REGISTERS_COUNT, MAX_WRITE_COILS_COUNT,
    MAX_WRITE_REGISTERS_COUNT,
};
use rodbus::error::details::InvalidRequest;
use rodbus::service::validation::range::{
    check_validity, check_validity_for_read_bits, check_validity_for_read_registers,
    check_validity_for_write_multiple_coils, check_validity_for_write_multiple_registers,
};
use rodbus::types::AddressRange;

#[test]
fn address_range_validates_correctly_for_bits() {
    assert_eq!(
        check_validity_for_read_bits(AddressRange::try_from(0, MAX_READ_COILS_COUNT).unwrap()),
        Ok(())
    );
    let err = Err(InvalidRequest::CountTooBigForType(
        MAX_READ_COILS_COUNT + 1,
        MAX_READ_COILS_COUNT,
    ));
    assert_eq!(
        check_validity_for_read_bits(
            AddressRange::try_from(0, MAX_READ_COILS_COUNT + 1).unwrap()
        ),
        err
    );
}

#[test]
fn address_range_validates_correctly_for_registers() {
    assert_eq!(
        check_validity_for_read_registers(
            AddressRange::try_from(0, MAX_READ_REGISTERS_COUNT).unwrap()
        ),
        Ok(())
    );
    let err = Err(InvalidRequest::CountTooBigForType(
        MAX_READ_REGISTERS_COUNT + 1,
        MAX_READ_REGISTERS_COUNT,
    ));
    assert_eq!(
        check_validity_for_read_registers(
            AddressRange::try_from(0, MAX_READ_REGISTERS_COUNT + 1).unwrap()
        ),
        err
    );
}

#[test]
fn limits_are_those_of_the_protocol() {
    assert_eq!(MAX_READ_COILS_COUNT, 2000);
    assert_eq!(MAX_READ_REGISTERS_COUNT, 125);
    assert_eq!(MAX_WRITE_COILS_COUNT, 1968);
    assert_eq!(MAX_WRITE_REGISTERS_COUNT, 123);
}

#[test]
fn read_of_three_thousand_coils_is_rejected() {
    assert_eq!(
        check_validity_for_read_bits(AddressRange::try_from(0, 3000).unwrap()),
        Err(InvalidRequest::CountTooBigForType(3000, 2000))
    );
}

#[test]
fn writes_are_held_to_their_limits() {
    assert_eq!(
        check_validity_for_write_multiple_coils(AddressRange::try_from(0, 1968).unwrap()),
        Ok(())
    );
    assert_eq!(
        check_validity_for_write_multiple_coils(AddressRange::try_from(0, 1969).unwrap()),
        Err(InvalidRequest::CountTooBigForType(1969, 1968))
    );
    assert_eq!(
        check_validity_for_write_multiple_registers(AddressRange::try_from(0, 123).unwrap()),
        Ok(())
    );
    assert_eq!(
        check_validity_for_write_multiple_registers(AddressRange::try_from(0, 124).unwrap()),
        Err(InvalidRequest::CountTooBigForType(124, 123))
    );
}

#[test]
fn check_validity_compares_the_count_with_the_limit() {
    let range = AddressRange::try_from(100, 10).unwrap();
    assert_eq!(check_validity(range, 10), Ok(()));
    assert_eq!(
        check_validity(range, 9),
        Err(InvalidRequest::CountTooBigForType(10, 9))
    );
}
