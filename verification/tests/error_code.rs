use privilege_switch::error_code::ByteOrder;

#[test]
fn native_order_is_that_of_the_machine() {
    for code in [0, 1, 2, 13, -1, 0x01020304, i32::MAX, i32::MIN] {
        assert_eq!(ByteOrder::native().encode(code), code.to_ne_bytes());
        assert_eq!(ByteOrder::native().decode(code.to_ne_bytes()), code);
    }
}

#[test]
fn bytes_stand_in_order() {
    assert_eq!(ByteOrder::Little.encode(0x01020304), [4, 3, 2, 1]);
    assert_eq!(ByteOrder::Big.encode(0x01020304), [1, 2, 3, 4]);
    assert_eq!(ByteOrder::Little.encode(-2), [0xfe, 0xff, 0xff, 0xff]);
    assert_eq!(ByteOrder::Big.encode(-2), [0xff, 0xff, 0xff, 0xfe]);
    assert_eq!(ByteOrder::Little.decode([4, 3, 2, 1]), 0x01020304);
    assert_eq!(ByteOrder::Big.decode([4, 3, 2, 1]), 0x04030201);
}

#[test]
fn error_codes_survive_the_pipe() {
    for order in [ByteOrder::Little, ByteOrder::Big] {
        for code in [0, 2, 13, 255, 256, -1, i32::MAX, i32::MIN] {
            assert_eq!(order.decode(order.encode(code)), code);
        }
        for bytes in [[0, 0, 0, 0], [1, 2, 3, 4], [255, 254, 0, 128]] {
            assert_eq!(order.encode(order.decode(bytes)), bytes);
        }
    }
}

#[test]
fn order_is_found_from_the_number_one() {
    assert_eq!(ByteOrder::laying_out_one([1, 0, 0, 0]), ByteOrder::Little);
    assert_eq!(ByteOrder::laying_out_one([0, 0, 0, 1]), ByteOrder::Big);
    assert_eq!(
        ByteOrder::native(),
        ByteOrder::laying_out_one(1i32.to_ne_bytes())
    );
}
