use flow_ui::recovery::{collect_group, share_slot, MAX_GROUP_COUNT, MAX_SHARE_COUNT};

#[test]
fn slots_lie_group_by_group() {
    assert_eq!(share_slot(0, 0), 0);
    assert_eq!(share_slot(3, 0), 3);
    assert_eq!(share_slot(0, 1), 16);
    assert_eq!(share_slot(3, 2), 35);
    // The last share of the last group fills the top of the slot space.
    assert_eq!(share_slot(15, 15), 255);
    assert_eq!(MAX_SHARE_COUNT * MAX_GROUP_COUNT, 256);
}

#[test]
fn collect_group_keeps_nonempty_shares_in_slot_order() {
    let shares = vec![
        String::from("abandon ability able"),
        String::new(),
        String::from("zoo zone wrap"),
        String::new(),
        String::from("young year yard"),
    ];
    let got = collect_group(&shares);
    assert_eq!(
        got,
        vec![
            String::from("abandon ability able"),
            String::from("zoo zone wrap"),
            String::from("young year yard"),
        ]
    );
}

#[test]
fn collect_group_of_empty_slots_is_empty() {
    let shares = vec![String::new(); 16];
    assert!(collect_group(&shares).is_empty());
}

#[test]
fn collect_group_keeps_a_full_group_whole() {
    let mut shares = Vec::new();
    for i in 0..16 {
        shares.push(format!("share {}", i));
    }
    let got = collect_group(&shares);
    assert_eq!(got, shares);
}
