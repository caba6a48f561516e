use thermal_print::direct::probe_order;

fn addresses(list: &[&str]) -> Vec<String> {
    list.iter().map(|address| address.to_string()).collect()
}

#[test]
fn without_a_name_addresses_keep_their_order() {
    let known = addresses(&["/dev/usb/lp0", "/dev/usb/lp1", "/dev/cu.usbserial-1"]);
    assert_eq!(probe_order("", &known), vec![0, 1, 2]);
    assert_eq!(probe_order("  \t", &known), vec![0, 1, 2]);
    assert_eq!(probe_order("", &[]), Vec::<usize>::new());
}

#[test]
fn addresses_that_hold_the_name_come_first() {
    let known = addresses(&["/dev/usb/lp0", "/dev/cu.EPSON-1", "/dev/usb/lp1", "/dev/cu.EPSON-2"]);
    assert_eq!(probe_order("EPSON", &known), vec![1, 3, 0, 2]);
    assert_eq!(probe_order(" EPSON \n", &known), vec![1, 3, 0, 2]);
    assert_eq!(probe_order("lp1", &known), vec![2, 0, 1, 3]);
    assert_eq!(probe_order("epson", &known), vec![0, 1, 2, 3]);
    assert_eq!(probe_order("/dev/", &known), vec![0, 1, 2, 3]);
    assert_eq!(probe_order("Zebra", &known), vec![0, 1, 2, 3]);
}

#[test]
fn every_address_is_tried_once() {
    let known = addresses(&["a", "ab", "b", "ba", "", "a"]);
    for name in ["", "a", "b", "ab", "c", " a "] {
        let mut order = probe_order(name, &known);
        assert_eq!(order.len(), known.len());
        order.sort();
        assert_eq!(order, vec![0, 1, 2, 3, 4, 5]);
    }
    assert_eq!(probe_order("a", &known), vec![0, 1, 3, 5, 2, 4]);
}
