use biochain::errors::Error;
use biochain::marketplace::DatasetMarketplace;
use biochain::registry::StudyRegistry;

fn registry_with_two_studies() -> StudyRegistry {
    let mut registry = StudyRegistry::new();
    registry
        .register_study(
            String::from("contributor_a"),
            String::from("proof_1"),
            String::from("attestation_1"),
            String::from("hash_1"),
            1,
        )
        .unwrap();
    registry
        .register_study(
            String::from("contributor_b"),
            String::from("proof_2"),
            String::from("attestation_2"),
            String::from("hash_2"),
            1,
        )
        .unwrap();
    registry
}

#[test]
fn test_register_dataset() {
    let registry = registry_with_two_studies();
    let mut marketplace = DatasetMarketplace::new();

    let dataset_id = String::from("dataset_1");
    let study_ids = vec![String::from("study_1"), String::from("study_2")];
    let price: i128 = 10000;

    let result = marketplace.register_dataset(&registry, dataset_id.clone(), study_ids, price);
    assert!(result.is_ok());

    let dataset = marketplace.get_dataset(&dataset_id);
    assert!(dataset.is_ok());
}

#[test]
fn registered_dataset_keeps_its_fields() {
    let registry = registry_with_two_studies();
    let mut marketplace = DatasetMarketplace::new();
    marketplace
        .register_dataset(
            &registry,
            String::from("dataset_1"),
            vec![String::from("study_2"), String::from("study_1")],
            2599,
        )
        .unwrap();
    let record = marketplace.get_dataset(&String::from("dataset_1")).unwrap();
    assert_eq!(record.dataset_id, "dataset_1");
    assert_eq!(record.study_ids, vec![String::from("study_2"), String::from("study_1")]);
    assert_eq!(record.price, 2599);
}

#[test]
fn duplicate_dataset_id_is_rejected() {
    let registry = registry_with_two_studies();
    let mut marketplace = DatasetMarketplace::new();
    marketplace
        .register_dataset(&registry, String::from("dataset_1"), vec![String::from("study_1")], 100)
        .unwrap();
    let second = marketplace.register_dataset(
        &registry,
        String::from("dataset_1"),
        vec![String::from("study_2")],
        200,
    );
    assert_eq!(second, Err(Error::DuplicateDataset));
    assert_eq!(marketplace.len(), 1);
}

#[test]
fn empty_study_list_is_rejected_and_writes_nothing() {
    let registry = registry_with_two_studies();
    let mut marketplace = DatasetMarketplace::new();
    let result = marketplace.register_dataset(&registry, String::from("dataset_1"), vec![], 100);
    assert_eq!(result, Err(Error::EmptyStudyList));
    assert_eq!(marketplace.len(), 0);
    assert_eq!(marketplace.get_dataset(&String::from("dataset_1")).err(), Some(Error::NotFound));
}

#[test]
fn negative_price_is_rejected() {
    let registry = registry_with_two_studies();
    let mut marketplace = DatasetMarketplace::new();
    let result = marketplace.register_dataset(
        &registry,
        String::from("dataset_1"),
        vec![String::from("study_1")],
        -1,
    );
    assert_eq!(result, Err(Error::InvalidPrice));
    assert_eq!(marketplace.len(), 0);
}

#[test]
fn unresolved_study_reference_is_rejected() {
    let registry = registry_with_two_studies();
    let mut marketplace = DatasetMarketplace::new();
    let result = marketplace.register_dataset(
        &registry,
        String::from("dataset_1"),
        vec![String::from("study_1"), String::from("study_9")],
        100,
    );
    assert_eq!(result, Err(Error::UnknownStudyReference));
    assert_eq!(marketplace.len(), 0);
}
