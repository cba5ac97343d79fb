use tracking_pixel::address::{ClientAddress, IPV4_OCTETS, IPV6_OCTETS};
use tracking_pixel::pixel::{canvas_width, pixel_buffer, CANVAS_HEIGHT, CHANNELS};

#[test]
fn ipv4_canvas_is_two_pixels_wide() {
    let addr = ClientAddress::V4([203, 0, 113, 7]);
    assert_eq!(canvas_width(&addr), 2);
}

#[test]
fn ipv6_canvas_is_six_pixels_wide() {
    let addr = ClientAddress::V6([0; 16]);
    assert_eq!(canvas_width(&addr), 6);
}

#[test]
fn canvas_is_one_row_of_rgb() {
    assert_eq!(CANVAS_HEIGHT, 1);
    assert_eq!(CHANNELS, 3);
}

#[test]
fn canvas_width_is_least_that_fits() {
    for addr in [ClientAddress::V4([1, 2, 3, 4]), ClientAddress::V6([9; 16])] {
        let width = canvas_width(&addr) as usize;
        let count = addr.to_octets().len();
        assert!(CHANNELS * width >= count);
        assert!(CHANNELS * (width - 1) < count);
    }
}

#[test]
fn octet_counts() {
    assert_eq!(IPV4_OCTETS, 4);
    assert_eq!(IPV6_OCTETS, 16);
    assert_eq!(ClientAddress::V4([10, 0, 0, 1]).to_octets().len(), 4);
    assert_eq!(ClientAddress::V6([0; 16]).to_octets().len(), 16);
}

#[test]
fn octets_are_read_in_network_order() {
    let v4 = ClientAddress::V4([192, 168, 1, 20]);
    assert_eq!(v4.to_octets(), vec![192, 168, 1, 20]);
    let v6 = ClientAddress::V6([
        0x20, 0x01, 0x0d, 0xb8, 0, 0, 0, 0, 0, 0, 0, 0, 0, 0, 0, 0x01,
    ]);
    assert_eq!(
        v6.to_octets(),
        vec![0x20, 0x01, 0x0d, 0xb8, 0, 0, 0, 0, 0, 0, 0, 0, 0, 0, 0, 0x01]
    );
}

#[test]
fn ipv4_pixels_are_octets_then_two_zeros() {
    let addr = ClientAddress::V4([203, 0, 113, 7]);
    assert_eq!(pixel_buffer(&addr), vec![203, 0, 113, 7, 0, 0]);
}

#[test]
fn ipv6_pixels_are_octets_then_two_zeros() {
    let octets = [
        0x20, 0x01, 0x0d, 0xb8, 0x85, 0xa3, 0x00, 0x00, 0x00, 0x00, 0x8a, 0x2e, 0x03, 0x70,
        0x73, 0x34,
    ];
    let addr = ClientAddress::V6(octets);
    assert_eq!(
        pixel_buffer(&addr),
        vec![
            0x20, 0x01, 0x0d, 0xb8, 0x85, 0xa3, 0x00, 0x00, 0x00, 0x00, 0x8a, 0x2e, 0x03, 0x70,
            0x73, 0x34, 0, 0,
        ]
    );
}

#[test]
fn unspecified_ipv4_gives_all_zero_pixels() {
    assert_eq!(pixel_buffer(&ClientAddress::V4([0, 0, 0, 0])), vec![0u8; 6]);
}

#[test]
fn broadcast_ipv4_keeps_padding_zero() {
    assert_eq!(
        pixel_buffer(&ClientAddress::V4([255, 255, 255, 255])),
        vec![255, 255, 255, 255, 0, 0]
    );
}

#[test]
fn all_ones_ipv6_keeps_padding_zero() {
    let mut expected = vec![255u8; 16];
    expected.push(0);
    expected.push(0);
    assert_eq!(pixel_buffer(&ClientAddress::V6([255; 16])), expected);
}

#[test]
fn pixel_buffer_fills_the_canvas() {
    for addr in [ClientAddress::V4([8, 8, 4, 4]), ClientAddress::V6([7; 16])] {
        let expected = CHANNELS * canvas_width(&addr) as usize * CANVAS_HEIGHT as usize;
        assert_eq!(pixel_buffer(&addr).len(), expected);
    }
}

#[test]
fn leading_pixel_bytes_give_the_address_back() {
    let v4 = [198, 51, 100, 23];
    assert_eq!(&pixel_buffer(&ClientAddress::V4(v4))[..4], &v4[..]);
    let v6 = [1, 2, 3, 4, 5, 6, 7, 8, 9, 10, 11, 12, 13, 14, 15, 16];
    assert_eq!(&pixel_buffer(&ClientAddress::V6(v6))[..16], &v6[..]);
}

#[test]
fn different_addresses_have_different_pixels() {
    let a = pixel_buffer(&ClientAddress::V4([10, 0, 0, 1]));
    let b = pixel_buffer(&ClientAddress::V4([10, 0, 0, 2]));
    assert_ne!(a, b);
    let mapped = pixel_buffer(&ClientAddress::V6([
        0, 0, 0, 0, 0, 0, 0, 0, 0, 0, 0xff, 0xff, 10, 0, 0, 1,
    ]));
    assert_ne!(a, mapped);
}
