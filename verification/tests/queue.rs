use indite::queue::pick_graphics_queue_family;

#[test]
fn picks_the_first_family_that_supports_graphics() {
    assert_eq!(pick_graphics_queue_family(&vec![false, true, true]), Some(1));
    assert_eq!(pick_graphics_queue_family(&vec![true]), Some(0));
    assert_eq!(pick_graphics_queue_family(&vec![false, false, true]), Some(2));
}

#[test]
fn no_graphics_family_means_no_device() {
    assert_eq!(pick_graphics_queue_family(&vec![false, false]), None);
    assert_eq!(pick_graphics_queue_family(&vec![]), None);
}
