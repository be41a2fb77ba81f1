use vegan_verse::{Catalog, Error, IdCounter, ProductPayload, RecordStore, Storage, VeganProduct};

fn payload(name: &str, description: &str, price: u64, seller: &str) -> ProductPayload {
    ProductPayload {
        name: name.to_string(),
        description: description.to_string(),
        price,
        seller: seller.to_string(),
    }
}

fn tofu() -> ProductPayload {
    payload("Tofu", "Firm", 500, "Acme")
}

fn fresh() -> Catalog {
    Catalog::open(Storage::open()).expect("an empty memory holds an empty catalog")
}

#[test]
fn scenario_create_toggle_get_delete_get() {
    let mut catalog = fresh();
    let created = catalog.add_product(tofu(), 1_000);
    assert_eq!(created.id, 0);
    assert!(created.availability);

    let toggled = catalog.toggle_availability(created.id, 1_001).unwrap();
    assert!(!toggled.availability);

    let found = catalog.get_product(created.id).unwrap();
    assert!(!found.availability);
    assert_eq!(found, toggled);

    let deleted = catalog.delete_product(created.id).unwrap();
    assert_eq!(deleted, found);

    assert_eq!(catalog.get_product(created.id), Err(Error::NotFound { id: 0 }));
}

#[test]
fn a_new_catalog_is_empty_and_starts_at_zero() {
    let catalog = fresh();
    assert_eq!(catalog.next_id(), 0);
    assert_eq!(catalog.get_product(0), Err(Error::NotFound { id: 0 }));
    assert_eq!(catalog.get_product(u64::MAX), Err(Error::NotFound { id: u64::MAX }));
}

#[test]
fn created_record_has_the_payload_and_the_assigned_fields() {
    let mut catalog = fresh();
    let created = catalog.add_product(tofu(), 42);
    let expected = VeganProduct {
        id: 0,
        name: "Tofu".to_string(),
        description: "Firm".to_string(),
        price: 500,
        seller: "Acme".to_string(),
        availability: true,
        created_at: 42,
        updated_at: None,
    };
    assert_eq!(created, expected);
    assert_eq!(catalog.get_product(0), Ok(expected));
    assert_eq!(catalog.next_id(), 1);
}

#[test]
fn identifiers_increase_and_are_not_reused_after_a_delete() {
    let mut catalog = fresh();
    let a = catalog.add_product(tofu(), 1).id;
    let b = catalog.add_product(payload("Tempeh", "Smoked", 650, "Acme"), 2).id;
    assert_eq!((a, b), (0, 1));
    catalog.delete_product(b).unwrap();
    catalog.delete_product(a).unwrap();
    let c = catalog.add_product(payload("Seitan", "Plain", 700, "Bloom"), 3).id;
    assert_eq!(c, 2);
    catalog.toggle_availability(c, 4).unwrap();
    catalog.update_product(c, tofu(), 5).unwrap();
    let d = catalog.add_product(tofu(), 6).id;
    assert_eq!(d, 3);
    assert_eq!(catalog.get_product(a), Err(Error::NotFound { id: 0 }));
    assert_eq!(catalog.get_product(b), Err(Error::NotFound { id: 1 }));
}

#[test]
fn many_additions_get_consecutive_identifiers() {
    let mut catalog = fresh();
    for expected in 0..200u64 {
        let product = catalog.add_product(payload("Oat milk", "1 l", expected, "Bloom"), expected);
        assert_eq!(product.id, expected);
    }
    assert_eq!(catalog.next_id(), 200);
    for id in 0..200u64 {
        let product = catalog.get_product(id).unwrap();
        assert_eq!(product.id, id);
        assert_eq!(product.price, id);
        assert_eq!(product.created_at, id);
    }
    assert_eq!(catalog.get_product(200), Err(Error::NotFound { id: 200 }));
}

#[test]
fn update_replaces_the_payload_fields_and_stamps_the_time() {
    let mut catalog = fresh();
    let created = catalog.add_product(tofu(), 10);
    let updated = catalog
        .update_product(created.id, payload("Silken tofu", "Soft", 450, "Bloom"), 20)
        .unwrap();
    let expected = VeganProduct {
        id: 0,
        name: "Silken tofu".to_string(),
        description: "Soft".to_string(),
        price: 450,
        seller: "Bloom".to_string(),
        availability: true,
        created_at: 10,
        updated_at: Some(20),
    };
    assert_eq!(updated, expected);
    assert!(updated.updated_at.unwrap() >= updated.created_at);
    assert_eq!(catalog.get_product(0), Ok(expected));
}

#[test]
fn update_keeps_the_availability() {
    let mut catalog = fresh();
    let id = catalog.add_product(tofu(), 10).id;
    catalog.toggle_availability(id, 11).unwrap();
    let updated = catalog.update_product(id, tofu(), 12).unwrap();
    assert!(!updated.availability);
    assert_eq!(updated.updated_at, Some(12));
}

#[test]
fn update_of_a_missing_product_is_refused_and_changes_nothing() {
    let mut catalog = fresh();
    let created = catalog.add_product(tofu(), 10);
    let result = catalog.update_product(7, payload("Seitan", "Plain", 700, "Bloom"), 20);
    assert_eq!(result, Err(Error::NotFound { id: 7 }));
    assert_eq!(catalog.get_product(0), Ok(created));
    assert_eq!(catalog.get_product(7), Err(Error::NotFound { id: 7 }));
    assert_eq!(catalog.next_id(), 1);
}

#[test]
fn delete_hands_back_the_last_state_and_the_product_is_gone() {
    let mut catalog = fresh();
    let id = catalog.add_product(tofu(), 10).id;
    let other = catalog.add_product(payload("Tempeh", "Smoked", 650, "Acme"), 11);
    let last = catalog.update_product(id, payload("Tofu", "Extra firm", 520, "Acme"), 12).unwrap();
    assert_eq!(catalog.delete_product(id), Ok(last));
    assert_eq!(catalog.get_product(id), Err(Error::NotFound { id }));
    assert_eq!(catalog.get_product(other.id), Ok(other));
}

#[test]
fn delete_of_a_missing_product_is_refused() {
    let mut catalog = fresh();
    assert_eq!(catalog.delete_product(3), Err(Error::NotFound { id: 3 }));
    let id = catalog.add_product(tofu(), 10).id;
    catalog.delete_product(id).unwrap();
    assert_eq!(catalog.delete_product(id), Err(Error::NotFound { id }));
    assert_eq!(catalog.next_id(), 1);
}

#[test]
fn toggle_twice_restores_the_availability_and_stamps_each_time() {
    let mut catalog = fresh();
    let created = catalog.add_product(tofu(), 10);
    let once = catalog.toggle_availability(created.id, 20).unwrap();
    assert_eq!(once.availability, !created.availability);
    assert_eq!(once.updated_at, Some(20));
    let twice = catalog.toggle_availability(created.id, 30).unwrap();
    assert_eq!(twice.availability, created.availability);
    assert_eq!(twice.updated_at, Some(30));
    assert!(twice.updated_at > once.updated_at);
    assert_eq!(twice, VeganProduct { updated_at: Some(30), ..created });
}

#[test]
fn toggle_of_a_missing_product_is_refused_and_changes_nothing() {
    let mut catalog = fresh();
    let created = catalog.add_product(tofu(), 10);
    assert_eq!(catalog.toggle_availability(1, 20), Err(Error::NotFound { id: 1 }));
    assert_eq!(catalog.get_product(0), Ok(created));
}

#[test]
fn an_update_or_a_toggle_touches_one_record_only() {
    let mut catalog = fresh();
    let a = catalog.add_product(tofu(), 1);
    let b = catalog.add_product(payload("Tempeh", "Smoked", 650, "Acme"), 2);
    let c = catalog.add_product(payload("Seitan", "Plain", 700, "Bloom"), 3);
    catalog.update_product(b.id, payload("Tempeh", "Marinated", 690, "Acme"), 4).unwrap();
    catalog.toggle_availability(c.id, 5).unwrap();
    assert_eq!(catalog.get_product(a.id), Ok(a));
    assert_eq!(catalog.get_product(b.id).unwrap().description, "Marinated");
    assert!(!catalog.get_product(c.id).unwrap().availability);
}

#[test]
fn the_catalog_is_found_again_in_the_same_storage() {
    let mut catalog = fresh();
    catalog.add_product(tofu(), 1);
    let kept = catalog.add_product(payload("Tempeh", "Smoked", 650, "Acme"), 2);
    catalog.delete_product(0).unwrap();
    let storage = catalog.close();

    let mut catalog = Catalog::open(storage).unwrap();
    assert_eq!(catalog.next_id(), 2);
    assert_eq!(catalog.get_product(0), Err(Error::NotFound { id: 0 }));
    assert_eq!(catalog.get_product(1), Ok(kept.clone()));
    assert_eq!(catalog.add_product(tofu(), 3).id, 2);
    let toggled = catalog.toggle_availability(1, 4).unwrap();

    let catalog = Catalog::open(catalog.close()).unwrap();
    assert_eq!(catalog.next_id(), 3);
    assert_eq!(catalog.get_product(1), Ok(toggled));
    assert_eq!(catalog.get_product(2).unwrap().name, "Tofu");
}

#[test]
fn a_large_catalog_is_found_again() {
    let mut catalog = fresh();
    for n in 0..300u64 {
        catalog.add_product(payload("Oat milk", &"x".repeat((n % 40) as usize), n, "Bloom"), n);
    }
    for id in (0..300u64).filter(|id| id % 3 == 1) {
        catalog.delete_product(id).unwrap();
    }
    let catalog = Catalog::open(catalog.close()).unwrap();
    assert_eq!(catalog.next_id(), 300);
    for id in 0..300u64 {
        let found = catalog.get_product(id);
        if id % 3 == 1 {
            assert_eq!(found, Err(Error::NotFound { id }));
        } else {
            let product = found.unwrap();
            assert_eq!(product.id, id);
            assert_eq!(product.price, id);
            assert_eq!(product.description.len() as u64, id % 40);
        }
    }
}

#[test]
fn two_storages_do_not_share_anything() {
    let mut first = fresh();
    let second = fresh();
    first.add_product(tofu(), 1);
    assert_eq!(second.next_id(), 0);
    assert_eq!(second.get_product(0), Err(Error::NotFound { id: 0 }));
}

#[test]
fn counter_issues_each_identifier_once() {
    let (region, _) = Storage::open().split();
    let mut counter = IdCounter::open(region).unwrap();
    assert_eq!(counter.peek(), 0);
    assert_eq!(counter.next_id(), 0);
    assert_eq!(counter.peek(), 1);
    assert_eq!(counter.next_id(), 1);
    assert_eq!(counter.next_id(), 2);
    let mut reopened = IdCounter::open(counter.close()).unwrap();
    assert_eq!(reopened.peek(), 3);
    assert_eq!(reopened.next_id(), 3);
}

fn empty_store() -> RecordStore {
    let (_, region) = Storage::open().split();
    RecordStore::open(region).unwrap()
}

fn counter_at(value: u64) -> IdCounter {
    let (region, _) = Storage::open().split();
    let mut counter = IdCounter::open(region).unwrap();
    for _ in 0..value {
        counter.next_id();
    }
    counter
}

fn record(id: u64) -> VeganProduct {
    VeganProduct {
        id,
        name: "Tofu".to_string(),
        description: "Firm".to_string(),
        price: 500,
        seller: "Acme".to_string(),
        availability: true,
        created_at: 9,
        updated_at: None,
    }
}

#[test]
fn store_get_insert_remove() {
    let mut store = empty_store();
    assert_eq!(store.get(4), None);
    store.insert(4, &record(4));
    assert_eq!(store.get(4), Some(record(4)));
    assert_eq!(store.get(5), None);
    let mut changed = record(4);
    changed.price = 1;
    store.insert(4, &changed);
    assert_eq!(store.get(4), Some(changed.clone()));
    assert_eq!(store.remove(4), Some(changed));
    assert_eq!(store.remove(4), None);
    assert_eq!(store.get(4), None);
}

#[test]
fn store_update_in_place_and_toggle() {
    let mut store = empty_store();
    store.insert(2, &record(2));
    let updated = store.update_in_place(2, payload("Miso", "Dark", 300, "Bloom"), 50).unwrap();
    assert_eq!(updated.name, "Miso");
    assert_eq!(updated.description, "Dark");
    assert_eq!(updated.price, 300);
    assert_eq!(updated.seller, "Bloom");
    assert_eq!(updated.updated_at, Some(50));
    assert_eq!(updated.created_at, 9);
    assert_eq!(updated.id, 2);
    assert_eq!(store.get(2), Some(updated.clone()));
    let toggled = store.toggle(2, 60).unwrap();
    assert_eq!(toggled, VeganProduct { availability: false, updated_at: Some(60), ..updated });
    assert_eq!(store.get(2), Some(toggled));
    assert_eq!(store.update_in_place(3, tofu(), 70), None);
    assert_eq!(store.toggle(3, 70), None);
    assert_eq!(store.get(3), None);
}

#[test]
fn store_finds_the_least_identifier_from_a_start() {
    let mut store = empty_store();
    assert_eq!(store.first_id_from(0), None);
    for id in [30u64, 10, 20, u64::MAX] {
        store.insert(id, &record(id));
    }
    assert_eq!(store.first_id_from(0), Some(10));
    assert_eq!(store.first_id_from(10), Some(10));
    assert_eq!(store.first_id_from(11), Some(20));
    assert_eq!(store.first_id_from(21), Some(30));
    assert_eq!(store.first_id_from(31), Some(u64::MAX));
    assert_eq!(store.first_id_from(u64::MAX), Some(u64::MAX));
    store.remove(u64::MAX);
    assert_eq!(store.first_id_from(31), None);
}

#[test]
fn store_is_found_again_in_the_same_region() {
    let mut store = empty_store();
    store.insert(8, &record(8));
    store.insert(3, &record(3));
    store.remove(8);
    let store = RecordStore::open(store.close()).unwrap();
    assert_eq!(store.get(3), Some(record(3)));
    assert_eq!(store.get(8), None);
    assert_eq!(store.first_id_from(0), Some(3));
    assert_eq!(store.first_id_from(4), None);
}

#[test]
fn a_record_under_another_identifier_makes_no_catalog() {
    let mut store = empty_store();
    store.insert(5, &record(3));
    let counter = counter_at(10);
    let storage = Storage::join(counter.close(), store.close());
    assert!(Catalog::open(storage).is_none());

    let mut store = empty_store();
    store.insert(5, &record(3));
    assert!(Catalog::assemble(counter_at(10), store).is_none());
}

#[test]
fn an_identifier_that_was_not_issued_makes_no_catalog() {
    let mut store = empty_store();
    store.insert(0, &record(0));
    store.insert(2, &record(2));
    assert!(Catalog::assemble(counter_at(2), store).is_none());

    let mut store = empty_store();
    store.insert(0, &record(0));
    assert!(Catalog::assemble(counter_at(0), store).is_none());
}

#[test]
fn a_counter_and_a_store_that_agree_make_a_catalog() {
    let mut store = empty_store();
    store.insert(0, &record(0));
    store.insert(2, &record(2));
    let mut catalog = Catalog::assemble(counter_at(3), store).unwrap();
    assert_eq!(catalog.next_id(), 3);
    assert_eq!(catalog.get_product(2), Ok(record(2)));
    assert_eq!(catalog.get_product(1), Err(Error::NotFound { id: 1 }));
    assert_eq!(catalog.add_product(tofu(), 5).id, 3);
}

#[test]
fn texts_outside_ascii_are_kept() {
    let mut catalog = fresh();
    let created = catalog.add_product(payload("豆腐", "Räuchertofu, geräuchert", 500, "Ünal 🌱"), 1);
    let found = catalog.get_product(created.id).unwrap();
    assert_eq!(found.name, "豆腐");
    assert_eq!(found.description, "Räuchertofu, geräuchert");
    assert_eq!(found.seller, "Ünal 🌱");
}

#[test]
fn empty_texts_and_extreme_numbers_are_kept() {
    let mut catalog = fresh();
    let created = catalog.add_product(payload("", "", u64::MAX, ""), u64::MAX);
    assert_eq!(created.price, u64::MAX);
    assert_eq!(created.created_at, u64::MAX);
    assert_eq!(catalog.get_product(0), Ok(created));
    let toggled = catalog.toggle_availability(0, 0).unwrap();
    assert_eq!(toggled.updated_at, Some(0));
    assert_eq!(catalog.get_product(0), Ok(toggled));
}

#[test]
fn the_largest_record_that_fits_is_stored() {
    let mut catalog = fresh();
    let largest = payload(&"n".repeat(1000), &"d".repeat(900), 1, &"s".repeat(90));
    assert!(largest.fits());
    let created = catalog.add_product(largest.clone(), 1);
    assert_eq!(created.to_bytes().len(), 2048);
    assert_eq!(catalog.get_product(0), Ok(created));
    let updated = catalog.update_product(0, largest, 2).unwrap();
    assert_eq!(updated.to_bytes().len(), 2048);
    let toggled = catalog.toggle_availability(0, 3).unwrap();
    assert_eq!(catalog.get_product(0), Ok(toggled));
}
