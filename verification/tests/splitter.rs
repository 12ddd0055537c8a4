use biochain::errors::Error;
use biochain::splitter::RevenueSplitter;

#[test]
fn test_split_revenue() {
    let mut splitter = RevenueSplitter::new();

    let treasury = String::from("treasury_account");
    splitter.set_treasury(treasury).unwrap();

    let dataset_id = String::from("dataset_1");
    let amount: i128 = 10000;
    let study_ids = vec![String::from("study_1"), String::from("study_2")];

    let result = splitter.split_revenue(&dataset_id, amount, &study_ids);
    assert!(result.is_ok());
}

#[test]
fn split_before_treasury_configuration_fails() {
    let splitter = RevenueSplitter::new();
    let result = splitter.split_revenue(
        &String::from("dataset_1"),
        10000,
        &vec![String::from("study_1")],
    );
    assert_eq!(result.err(), Some(Error::TreasuryNotConfigured));
}

#[test]
fn split_over_empty_study_list_fails() {
    let mut splitter = RevenueSplitter::new();
    splitter.set_treasury(String::from("treasury_account")).unwrap();
    let result = splitter.split_revenue(&String::from("dataset_1"), 10000, &vec![]);
    assert_eq!(result.err(), Some(Error::EmptyContributorList));
}

#[test]
fn even_split_leaves_no_residual() {
    let mut splitter = RevenueSplitter::new();
    splitter.set_treasury(String::from("treasury_account")).unwrap();
    let study_ids = vec![String::from("study_1"), String::from("study_2")];
    let signals = splitter
        .split_revenue(&String::from("dataset_1"), 10000, &study_ids)
        .unwrap();
    assert_eq!(signals.len(), 3);
    assert_eq!(signals[0].recipient, "study_1");
    assert_eq!(signals[0].amount, 4250);
    assert_eq!(signals[1].recipient, "study_2");
    assert_eq!(signals[1].amount, 4250);
    assert_eq!(signals[2].recipient, "treasury_account");
    assert_eq!(signals[2].amount, 1500);
    let total: i128 = signals.iter().map(|s| s.amount).sum();
    assert_eq!(total, 10000);
}

#[test]
fn uneven_split_drops_the_rounding_residual() {
    let mut splitter = RevenueSplitter::new();
    splitter.set_treasury(String::from("treasury_account")).unwrap();
    let study_ids = vec![
        String::from("study_1"),
        String::from("study_2"),
        String::from("study_3"),
    ];
    let signals = splitter
        .split_revenue(&String::from("dataset_1"), 10001, &study_ids)
        .unwrap();
    assert_eq!(signals.len(), 4);
    for signal in &signals[..3] {
        assert_eq!(signal.amount, 2833);
    }
    assert_eq!(signals[3].recipient, "treasury_account");
    assert_eq!(signals[3].amount, 1500);
    let total: i128 = signals.iter().map(|s| s.amount).sum();
    assert!(total <= 10001);
    assert_eq!(total, 9999);
}

#[test]
fn duplicate_references_each_get_a_signal() {
    let mut splitter = RevenueSplitter::new();
    splitter.set_treasury(String::from("treasury_account")).unwrap();
    let study_ids = vec![String::from("study_1"), String::from("study_1")];
    let signals = splitter
        .split_revenue(&String::from("dataset_1"), 1000, &study_ids)
        .unwrap();
    assert_eq!(signals.len(), 3);
    assert_eq!(signals[0].recipient, "study_1");
    assert_eq!(signals[1].recipient, "study_1");
    assert_eq!(signals[0].amount, 425);
    assert_eq!(signals[1].amount, 425);
}

#[test]
fn set_treasury_overwrites_the_slot() {
    let mut splitter = RevenueSplitter::new();
    splitter.set_treasury(String::from("first_treasury")).unwrap();
    splitter.set_treasury(String::from("second_treasury")).unwrap();
    let signals = splitter
        .split_revenue(&String::from("dataset_1"), 100, &vec![String::from("study_1")])
        .unwrap();
    assert_eq!(signals[1].recipient, "second_treasury");
}
