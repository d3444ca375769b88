use car_sharing::marketplace::{
    CarSharing, COMPONENT_REGISTRY, OWNER_BADGE_REGISTRY, ROOT_BADGE_REGISTRY, USER_BADGE_REGISTRY,
};
use car_sharing::{Car, Payment, RentalError, TokenId, TokenRegistry};

fn listed_car(rate: u64, owner_local: u64, vin: &str) -> Car {
    Car {
        make: String::from("BMW"),
        model: String::from("i3"),
        year: 2021,
        vin: String::from(vin),
        mileage: 18300,
        location: String::from("Lisboa"),
        price_per_hour: rate,
        owner_badge_id: owner_local,
    }
}

#[test]
fn owner_registration_checks_the_attestation() {
    let (mut market, _root) = CarSharing::instantiate_car_sharing(2);
    let refused = market.create_car_owner_account(
        String::from("Ada"),
        1,
        String::from("Stolen Car"),
    );
    assert_eq!(refused.err(), Some(RentalError::AuthorizationFailure));

    let badge = market
        .create_car_owner_account(String::from("Ada"), 1, String::from("Valid Car"))
        .unwrap_or_else(|_| panic!("a valid attestation must register"));
    assert_eq!(
        badge.id,
        TokenId { registry: OWNER_BADGE_REGISTRY, local: 1 }
    );
    assert_eq!(badge.owner_name, "Ada");
    assert_eq!(badge.owner_number, 1);
}

#[test]
fn user_registration_checks_the_license() {
    let (mut market, _root) = CarSharing::instantiate_car_sharing(2);
    let refused =
        market.create_user_account(String::from("Grace"), 1, String::from("Expired License"));
    assert_eq!(refused.err(), Some(RentalError::AuthorizationFailure));

    let badge = market
        .create_user_account(String::from("Grace"), 1, String::from("Valid Driving License"))
        .unwrap_or_else(|_| panic!("a valid license must register"));
    assert_eq!(
        badge.id,
        TokenId { registry: USER_BADGE_REGISTRY, local: 1 }
    );
    assert_eq!(badge.user_name, "Grace");
    assert_eq!(badge.driving_license, "Valid Driving License");
}

#[test]
fn administrative_minting_requires_the_root_credential() {
    let (mut market, root) = CarSharing::instantiate_car_sharing(2);
    let not_root = TokenId { registry: ROOT_BADGE_REGISTRY, local: 2 };

    let refused = market.mint_car_owner_badge(not_root, String::from("Ada"), 5);
    assert_eq!(refused.err(), Some(RentalError::AuthorizationFailure));
    let owner_badge = market
        .mint_car_owner_badge(root, String::from("Ada"), 5)
        .unwrap_or_else(|_| panic!("the root credential must mint"));
    assert_eq!(
        owner_badge.id,
        TokenId { registry: OWNER_BADGE_REGISTRY, local: 5 }
    );

    let refused = market.mint_user_badge(not_root, String::from("Grace"), 5);
    assert_eq!(refused.err(), Some(RentalError::AuthorizationFailure));
    let user_badge = market
        .mint_user_badge(root, String::from("Grace"), 5)
        .unwrap_or_else(|_| panic!("the root credential must mint"));
    assert_eq!(
        user_badge.id,
        TokenId { registry: USER_BADGE_REGISTRY, local: 5 }
    );
    assert_eq!(user_badge.driving_license, "");
}

#[test]
fn listing_requires_a_registered_owner() {
    let (mut market, _root) = CarSharing::instantiate_car_sharing(2);
    let badge = market
        .create_car_owner_account(String::from("Ada"), 1, String::from("Valid Car"))
        .unwrap_or_else(|_| panic!("a valid attestation must register"));

    // A proof from the wrong registry is refused.
    let wrong_registry = TokenId { registry: COMPONENT_REGISTRY, local: 1 };
    let refused = market.add_car(wrong_registry, listed_car(10, 1, "VINA"), 10);
    assert_eq!(refused.err(), Some(RentalError::AuthorizationFailure));

    // A serial number that was never minted is refused.
    let never_minted = TokenId { registry: OWNER_BADGE_REGISTRY, local: 99 };
    let refused = market.add_car(never_minted, listed_car(10, 99, "VINB"), 10);
    assert_eq!(refused.err(), Some(RentalError::AuthorizationFailure));
    assert_eq!(market.car_count(), 0);

    // The registered owner's badge identity lists the car.
    assert!(market.add_car(badge.id, listed_car(10, 1, "VINC"), 10).is_ok());
    assert_eq!(market.car_count(), 1);
    assert!(market.is_available(0));
    assert_eq!(market.engine(0).price_per_hour(), 10);
    assert_eq!(market.engine(0).fee(), 2);
    assert_eq!(market.engine(0).owner_id(), badge.id);
    assert_eq!(market.engine(0).car().vin, "VINC");
}

#[test]
fn catalog_flow_rents_returns_and_settles() {
    let (mut market, root) = CarSharing::instantiate_car_sharing(2);
    let owner = market
        .create_car_owner_account(String::from("Ada"), 1, String::from("Valid Car"))
        .unwrap_or_else(|_| panic!("a valid attestation must register"));
    assert!(market.add_car(owner.id, listed_car(10, 1, "VIN0"), 10).is_ok());

    let badge = market
        .rent_car(0, 3, Payment::new(32), 777)
        .unwrap_or_else(|_| panic!("a sufficient payment must rent"));
    assert!(!market.is_available(0));
    assert_eq!(badge.car_id(), 0);
    assert_eq!(badge.start_time(), 777);

    assert!(market.return_car(0, badge).is_ok());
    assert!(market.is_available(0));

    let payout = market
        .withdraw_car_owner_vault(0, owner.id)
        .unwrap_or_else(|_| panic!("the owner must withdraw"));
    assert_eq!(payout.amount(), 30);

    let fees = market
        .collect_fees(0, root)
        .unwrap_or_else(|_| panic!("the root credential must collect"));
    assert_eq!(fees.amount(), 2);

    // With both vaults drained a second settlement yields nothing.
    assert_eq!(
        market.withdraw_car_owner_vault(0, owner.id).map(|p| p.amount()),
        Ok(0)
    );
    assert_eq!(market.collect_fees(0, root).map(|p| p.amount()), Ok(0));
}

#[test]
fn catalog_rejects_what_its_engines_reject() {
    let (mut market, root) = CarSharing::instantiate_car_sharing(2);
    let owner = market
        .create_car_owner_account(String::from("Ada"), 1, String::from("Valid Car"))
        .unwrap_or_else(|_| panic!("a valid attestation must register"));
    assert!(market.add_car(owner.id, listed_car(10, 1, "VIN0"), 10).is_ok());

    match market.rent_car(0, 3, Payment::new(31), 0) {
        Err((e, refund)) => {
            assert_eq!(e, RentalError::InsufficientPayment);
            assert_eq!(refund.amount(), 31);
        }
        Ok(_) => panic!("a short payment must be refused"),
    }

    let badge = market
        .rent_car(0, 3, Payment::new(32), 0)
        .unwrap_or_else(|_| panic!("a sufficient payment must rent"));
    match market.rent_car(0, 1, Payment::new(100), 1) {
        Err((e, _refund)) => assert_eq!(e, RentalError::UnavailableResource),
        Ok(_) => panic!("a rented-out car must be refused"),
    }

    let impostor = TokenId { registry: OWNER_BADGE_REGISTRY, local: 2 };
    assert_eq!(
        market.withdraw_car_owner_vault(0, impostor).err(),
        Some(RentalError::AuthorizationFailure)
    );
    assert_eq!(
        market.collect_fees(0, owner.id).err(),
        Some(RentalError::AuthorizationFailure)
    );
    assert_eq!(market.engine(0).owner_vault_balance(), 30);
    assert_eq!(market.engine(0).fees_vault_balance(), 2);

    assert!(market.return_car(0, badge).is_ok());
    let _ = root;
}

#[test]
fn listing_order_shows_in_available_cars() {
    let (mut market, _root) = CarSharing::instantiate_car_sharing(1);
    let owner = market
        .create_car_owner_account(String::from("Ada"), 1, String::from("Valid Car"))
        .unwrap_or_else(|_| panic!("a valid attestation must register"));
    for vin in ["VIN0", "VIN1", "VIN2"] {
        assert!(market.add_car(owner.id, listed_car(5, 1, vin), 5).is_ok());
    }

    let all = market.list_available_cars();
    assert_eq!(all.len(), 3);
    assert_eq!(all.get_index(0), Some(&0));
    assert_eq!(all.get_index(1), Some(&1));
    assert_eq!(all.get_index(2), Some(&2));

    let badge = market
        .rent_car(1, 1, Payment::new(6), 0)
        .unwrap_or_else(|_| panic!("a sufficient payment must rent"));
    let remaining = market.list_available_cars();
    assert_eq!(remaining.len(), 2);
    assert!(remaining.contains(&0));
    assert!(!remaining.contains(&1));
    assert!(remaining.contains(&2));
    assert_eq!(remaining.get_index(0), Some(&0));
    assert_eq!(remaining.get_index(1), Some(&2));

    assert!(market.return_car(1, badge).is_ok());
    let restored = market.list_available_cars();
    assert_eq!(restored.len(), 3);
    assert!(restored.contains(&1));
}

#[test]
fn serial_numbers_are_tracked() {
    let (mut market, _root) = CarSharing::instantiate_car_sharing(2);
    assert!(!market.owner_number_taken(1));
    assert!(market
        .create_car_owner_account(String::from("Ada"), 1, String::from("Valid Car"))
        .is_ok());
    assert!(market.owner_number_taken(1));
    assert!(!market.owner_number_taken(2));

    assert!(!market.user_number_taken(1));
    assert!(market
        .create_user_account(String::from("Grace"), 1, String::from("Valid Driving License"))
        .is_ok());
    assert!(market.user_number_taken(1));
}

#[test]
fn registries_mint_under_their_authority() {
    let authority = TokenId { registry: 2, local: 1 };
    let mut registry = TokenRegistry::new(9, authority);
    assert_eq!(registry.id(), 9);

    let impostor = TokenId { registry: 2, local: 2 };
    assert_eq!(
        registry.mint(impostor, 4).err(),
        Some(RentalError::AuthorizationFailure)
    );
    assert!(!registry.was_minted(4));

    let token = registry
        .mint(authority, 4)
        .unwrap_or_else(|_| panic!("the authority must mint"));
    assert_eq!(token, TokenId { registry: 9, local: 4 });
    assert!(registry.was_minted(4));
    assert!(!registry.was_minted(5));
}
