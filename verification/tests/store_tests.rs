use vitanote_store::envelope::StoreError;
use vitanote_store::records::BloodGlucose;
use vitanote_store::records::ChatMessage;
use vitanote_store::records::FoodEntry;
use vitanote_store::records::Medication;
use vitanote_store::records::User;
use vitanote_store::store::HealthRecordStore;

fn user(id: &str, email: &str, created_at: &str) -> User {
    User {
        id: id.to_owned(),
        username: "alice".to_owned(),
        email: email.to_owned(),
        phone: Some("555-0100".to_owned()),
        password_hash: "opaque-hash".to_owned(),
        created_at: created_at.to_owned(),
        birthday: Some("1990-05-04".to_owned()),
        gender: 1,
        height: 1700,
        diabetes_type: 2,
        diagnosis_date: None,
        treatment_plan: 1,
        target_weight: Some(65000),
        target_hb_a1c: Some(65),
        target_calories: None,
        target_carbohydrates: None,
    }
}

fn food(id: &str, user_id: &str, created_at: &str) -> FoodEntry {
    FoodEntry {
        id: id.to_owned(),
        user_id: user_id.to_owned(),
        created_at: created_at.to_owned(),
        meal_type: 1,
        meal_time: created_at.to_owned(),
        food_name: "oatmeal".to_owned(),
        quantity: 150,
        calories: 230,
        carbohydrates: 40,
        protein: 8,
        fat: 4,
        gi: Some(55),
        gl: None,
        source: 0,
        image_path: None,
        notes: Some("breakfast".to_owned()),
    }
}

fn glucose(id: &str, user_id: &str, created_at: &str) -> BloodGlucose {
    BloodGlucose {
        id: id.to_owned(),
        user_id: user_id.to_owned(),
        created_at: created_at.to_owned(),
        value: 61,
        measurement_time: 2,
        measurement_time_exact: Some(created_at.to_owned()),
        before_meal_glucose: Some(55),
        after_meal_glucose: None,
        related_meal: Some(1),
        notes: None,
        device_name: Some("meter-a".to_owned()),
        device_serial: Some("SN-1".to_owned()),
    }
}

fn medication(id: &str, user_id: &str, created_at: &str) -> Medication {
    Medication {
        id: id.to_owned(),
        user_id: user_id.to_owned(),
        created_at: created_at.to_owned(),
        drug_name: "metformin".to_owned(),
        medication_type: 0,
        dose: 500,
        unit: "mg".to_owned(),
        timing: 1,
        insulin_type: None,
        insulin_duration: None,
        scheduled_time: "2024-02-01T08:00:00".to_owned(),
        actual_time: None,
        is_taken: false,
        notes: None,
    }
}

fn chat(id: &str, user_id: &str, created_at: &str, content: &str) -> ChatMessage {
    ChatMessage {
        id: id.to_owned(),
        user_id: user_id.to_owned(),
        created_at: created_at.to_owned(),
        role: "user".to_owned(),
        content: content.to_owned(),
        model: Some("assistant-1".to_owned()),
    }
}

fn ready_store() -> HealthRecordStore {
    let mut st = HealthRecordStore::new(None, None);
    st.initialize().unwrap();
    st
}

fn store_with_user(uid: &str) -> HealthRecordStore {
    let mut st = ready_store();
    st.create_user(user(uid, &format!("{}@example.com", uid), "2024-01-01T00:00:00"))
        .unwrap();
    st
}

#[test]
fn initialize_is_idempotent() {
    let mut st = HealthRecordStore::new(None, None);
    let first = st.initialize().unwrap();
    assert!(first.success);
    assert_eq!(first.data.as_deref(), Some("Database initialized successfully"));
    let second = st.initialize().unwrap();
    assert!(second.success);
    // records survive a re-initialization
    let mut st2 = store_with_user("u1");
    st2.initialize().unwrap();
    let got = st2.get_user_by_id("u1").unwrap().data.unwrap();
    assert!(got.is_some());
}

#[test]
fn operations_before_initialize_report_storage_unavailable() {
    let mut st = HealthRecordStore::new(None, None);
    assert_eq!(
        st.create_user(user("u1", "a@example.com", "2024-01-01T00:00:00")),
        Err(StoreError::StorageUnavailable)
    );
    assert_eq!(st.get_user_by_id("u1"), Err(StoreError::StorageUnavailable));
    assert_eq!(st.delete_medication("m1"), Err(StoreError::StorageUnavailable));
    assert_eq!(
        st.list_food_entries("u1", "2024-01-01", "2024-02-01", 1, 10),
        Err(StoreError::StorageUnavailable)
    );
}

#[test]
fn data_dir_resolution_order() {
    let host = HealthRecordStore::new(Some("/host/app-data".to_owned()), Some("/local".to_owned()));
    assert_eq!(host.data_dir, "/host/app-data");
    let platform = HealthRecordStore::new(None, Some("/local".to_owned()));
    assert_eq!(platform.data_dir, "/local/VitaNote");
    let fallback = HealthRecordStore::new(None, None);
    assert_eq!(fallback.data_dir, "./data");
    assert_eq!(fallback.database_path(), "./data/vitanote.db");
}

#[test]
fn user_round_trip_by_id_and_email() {
    let mut st = ready_store();
    let u = user("u1", "a@example.com", "2024-01-01T00:00:00");
    let echoed = st.create_user(u.clone()).unwrap();
    assert!(echoed.success);
    assert_eq!(echoed.data, Some(u.clone()));
    let by_id = st.get_user_by_id("u1").unwrap();
    assert!(by_id.success);
    assert_eq!(by_id.data, Some(Some(u.clone())));
    let by_email = st.get_user_by_email("a@example.com").unwrap();
    assert_eq!(by_email.data, Some(Some(u)));
}

#[test]
fn missing_user_lookup_succeeds_with_empty_payload() {
    let st = ready_store();
    let by_id = st.get_user_by_id("nobody").unwrap();
    assert!(by_id.success);
    assert_eq!(by_id.data, Some(None));
    let by_email = st.get_user_by_email("nobody@example.com").unwrap();
    assert!(by_email.success);
    assert_eq!(by_email.data, Some(None));
}

#[test]
fn duplicate_email_fails_second_create() {
    let mut st = ready_store();
    st.create_user(user("u1", "same@example.com", "2024-01-01T00:00:00")).unwrap();
    let second = st.create_user(user("u2", "same@example.com", "2024-01-02T00:00:00"));
    assert_eq!(second, Err(StoreError::ConstraintViolation));
}

#[test]
fn duplicate_id_fails_second_create_for_every_kind() {
    let mut st = store_with_user("u1");
    assert_eq!(
        st.create_user(user("u1", "other@example.com", "2024-01-02T00:00:00")),
        Err(StoreError::ConstraintViolation)
    );
    st.create_food_entry(food("f1", "u1", "2024-01-02T08:00:00")).unwrap();
    assert_eq!(
        st.create_food_entry(food("f1", "u1", "2024-01-03T08:00:00")),
        Err(StoreError::ConstraintViolation)
    );
    st.create_blood_glucose(glucose("g1", "u1", "2024-01-02T09:00:00")).unwrap();
    assert_eq!(
        st.create_blood_glucose(glucose("g1", "u1", "2024-01-03T09:00:00")),
        Err(StoreError::ConstraintViolation)
    );
    st.create_medication(medication("m1", "u1", "2024-01-02T10:00:00")).unwrap();
    assert_eq!(
        st.create_medication(medication("m1", "u1", "2024-01-03T10:00:00")),
        Err(StoreError::ConstraintViolation)
    );
    st.create_chat_message(chat("c1", "u1", "2024-01-02T11:00:00", "hi")).unwrap();
    assert_eq!(
        st.create_chat_message(chat("c1", "u1", "2024-01-03T11:00:00", "hi again")),
        Err(StoreError::ConstraintViolation)
    );
}

#[test]
fn missing_owner_fails_child_create() {
    let mut st = ready_store();
    assert_eq!(
        st.create_food_entry(food("f1", "ghost", "2024-01-02T08:00:00")),
        Err(StoreError::ConstraintViolation)
    );
    assert_eq!(
        st.create_blood_glucose(glucose("g1", "ghost", "2024-01-02T09:00:00")),
        Err(StoreError::ConstraintViolation)
    );
    assert_eq!(
        st.create_medication(medication("m1", "ghost", "2024-01-02T10:00:00")),
        Err(StoreError::ConstraintViolation)
    );
    assert_eq!(
        st.create_chat_message(chat("c1", "ghost", "2024-01-02T11:00:00", "hi")),
        Err(StoreError::ConstraintViolation)
    );
}

#[test]
fn food_entry_round_trip_by_range() {
    let mut st = store_with_user("u1");
    let e = food("f1", "u1", "2024-01-10T12:00:00");
    let echoed = st.create_food_entry(e.clone()).unwrap();
    assert_eq!(echoed.data, Some(e.clone()));
    let page = st
        .list_food_entries("u1", "2024-01-01T00:00:00", "2024-02-01T00:00:00", 1, 10)
        .unwrap()
        .data
        .unwrap();
    assert_eq!(page.total, 1);
    assert_eq!(page.items, vec![e]);
}

#[test]
fn glucose_round_trip_by_range() {
    let mut st = store_with_user("u1");
    let g = glucose("g1", "u1", "2024-01-10T12:00:00");
    st.create_blood_glucose(g.clone()).unwrap();
    let page = st
        .list_blood_glucose("u1", "2024-01-01T00:00:00", "2024-02-01T00:00:00", 1, 10)
        .unwrap()
        .data
        .unwrap();
    assert_eq!(page.total, 1);
    assert_eq!(page.items, vec![g]);
}

#[test]
fn medication_round_trip_by_range() {
    let mut st = store_with_user("u1");
    let m = medication("m1", "u1", "2024-01-10T12:00:00");
    st.create_medication(m.clone()).unwrap();
    let page = st
        .list_medications("u1", "2024-01-01T00:00:00", "2024-02-01T00:00:00", 1, 10)
        .unwrap()
        .data
        .unwrap();
    assert_eq!(page.total, 1);
    assert_eq!(page.items, vec![m]);
}

#[test]
fn pagination_slices_descending_with_full_total() {
    let mut st = store_with_user("u1");
    for day in 1..=5 {
        st.create_food_entry(food(
            &format!("f{}", day),
            "u1",
            &format!("2024-01-0{}T08:00:00", day),
        ))
        .unwrap();
    }
    let expect_ids = |page: &Vec<FoodEntry>, ids: &[&str]| {
        let got: Vec<&str> = page.iter().map(|e| e.id.as_str()).collect();
        assert_eq!(got, ids);
    };
    let p1 = st
        .list_food_entries("u1", "2024-01-01T00:00:00", "2024-02-01T00:00:00", 1, 2)
        .unwrap()
        .data
        .unwrap();
    assert_eq!(p1.total, 5);
    assert_eq!((p1.page, p1.page_size), (1, 2));
    expect_ids(&p1.items, &["f5", "f4"]);
    let p2 = st
        .list_food_entries("u1", "2024-01-01T00:00:00", "2024-02-01T00:00:00", 2, 2)
        .unwrap()
        .data
        .unwrap();
    assert_eq!(p2.total, 5);
    expect_ids(&p2.items, &["f3", "f2"]);
    let p3 = st
        .list_food_entries("u1", "2024-01-01T00:00:00", "2024-02-01T00:00:00", 3, 2)
        .unwrap()
        .data
        .unwrap();
    assert_eq!(p3.total, 5);
    expect_ids(&p3.items, &["f1"]);
    let p4 = st
        .list_food_entries("u1", "2024-01-01T00:00:00", "2024-02-01T00:00:00", 4, 2)
        .unwrap()
        .data
        .unwrap();
    assert_eq!(p4.total, 5);
    assert!(p4.items.is_empty());
}

#[test]
fn range_filter_includes_start_excludes_end() {
    let mut st = store_with_user("u1");
    st.create_food_entry(food("at-start", "u1", "2024-01-01T00:00:00")).unwrap();
    st.create_food_entry(food("at-end", "u1", "2024-01-31T00:00:00")).unwrap();
    let page = st
        .list_food_entries("u1", "2024-01-01T00:00:00", "2024-01-31T00:00:00", 1, 10)
        .unwrap()
        .data
        .unwrap();
    assert_eq!(page.total, 1);
    assert_eq!(page.items[0].id, "at-start");
}

#[test]
fn range_filter_only_returns_matching_owner() {
    let mut st = store_with_user("u1");
    st.create_user(user("u2", "b@example.com", "2024-01-01T00:00:00")).unwrap();
    st.create_food_entry(food("mine", "u1", "2024-01-10T08:00:00")).unwrap();
    st.create_food_entry(food("theirs", "u2", "2024-01-10T09:00:00")).unwrap();
    let page = st
        .list_food_entries("u1", "2024-01-01T00:00:00", "2024-02-01T00:00:00", 1, 10)
        .unwrap()
        .data
        .unwrap();
    assert_eq!(page.total, 1);
    assert_eq!(page.items[0].id, "mine");
}

#[test]
fn delete_is_idempotent_for_every_kind() {
    let mut st = store_with_user("u1");
    st.create_food_entry(food("f1", "u1", "2024-01-10T08:00:00")).unwrap();
    st.create_blood_glucose(glucose("g1", "u1", "2024-01-10T09:00:00")).unwrap();
    st.create_medication(medication("m1", "u1", "2024-01-10T10:00:00")).unwrap();

    // deleting an id that never existed succeeds
    assert!(st.delete_food_entry("never").unwrap().success);

    // delete an existing row, then repeat: both succeed, row gone after first
    let first = st.delete_food_entry("f1").unwrap();
    assert_eq!(first.data.as_deref(), Some("Deleted"));
    let page = st
        .list_food_entries("u1", "2024-01-01T00:00:00", "2024-02-01T00:00:00", 1, 10)
        .unwrap()
        .data
        .unwrap();
    assert_eq!(page.total, 0);
    assert!(st.delete_food_entry("f1").unwrap().success);

    assert!(st.delete_blood_glucose("g1").unwrap().success);
    assert!(st.delete_blood_glucose("g1").unwrap().success);
    assert!(st.delete_medication("m1").unwrap().success);
    assert!(st.delete_medication("m1").unwrap().success);
}

#[test]
fn mark_medication_taken_sets_flag_and_time_only() {
    let mut st = store_with_user("u1");
    st.create_medication(medication("m1", "u1", "2024-01-10T10:00:00")).unwrap();
    let marked = st.mark_medication_taken("m1", "2024-02-01T08:05:00").unwrap();
    assert!(marked.success);
    assert_eq!(marked.data.as_deref(), Some("Marked as taken"));
    let page = st
        .list_medications("u1", "2024-01-01T00:00:00", "2024-02-01T00:00:00", 1, 10)
        .unwrap()
        .data
        .unwrap();
    let m = &page.items[0];
    assert!(m.is_taken);
    assert_eq!(m.actual_time.as_deref(), Some("2024-02-01T08:05:00"));
    assert_eq!(m.scheduled_time, "2024-02-01T08:00:00");
    assert_eq!(m.drug_name, "metformin");
}

#[test]
fn mark_medication_taken_missing_id_is_noop_success() {
    let mut st = store_with_user("u1");
    let r = st.mark_medication_taken("missing", "2024-02-01T08:05:00").unwrap();
    assert!(r.success);
}

#[test]
fn update_user_replaces_mutable_fields_only() {
    let mut st = ready_store();
    let created = user("u1", "a@example.com", "2024-01-01T00:00:00");
    st.create_user(created.clone()).unwrap();
    let mut updated = user("u1", "new@example.com", "2030-12-31T00:00:00");
    updated.username = "bob".to_owned();
    updated.password_hash = "attempted-overwrite".to_owned();
    updated.height = 1800;
    let r = st.update_user(updated).unwrap();
    assert!(r.success);
    let got = st.get_user_by_id("u1").unwrap().data.unwrap().unwrap();
    assert_eq!(got.username, "bob");
    assert_eq!(got.email, "new@example.com");
    assert_eq!(got.height, 1800);
    // immutable through this path
    assert_eq!(got.password_hash, created.password_hash);
    assert_eq!(got.created_at, created.created_at);
}

#[test]
fn update_user_unknown_id_is_noop_success() {
    let mut st = store_with_user("u1");
    let r = st.update_user(user("ghost", "g@example.com", "2024-01-01T00:00:00")).unwrap();
    assert!(r.success);
    assert_eq!(st.get_user_by_id("ghost").unwrap().data, Some(None));
    // still a no-op success when the record's email belongs to someone else:
    // no row matches, so no uniqueness check fires
    let r = st.update_user(user("ghost", "u1@example.com", "2024-01-01T00:00:00")).unwrap();
    assert!(r.success);
    assert_eq!(st.get_user_by_id("ghost").unwrap().data, Some(None));
}

#[test]
fn update_user_to_taken_email_fails() {
    let mut st = ready_store();
    st.create_user(user("u1", "a@example.com", "2024-01-01T00:00:00")).unwrap();
    st.create_user(user("u2", "b@example.com", "2024-01-02T00:00:00")).unwrap();
    let stolen = user("u2", "a@example.com", "2024-01-02T00:00:00");
    assert_eq!(st.update_user(stolen), Err(StoreError::ConstraintViolation));
}

#[test]
fn chat_history_returns_newest_first_up_to_limit() {
    let mut st = store_with_user("u1");
    for day in 1..=4 {
        st.create_chat_message(chat(
            &format!("c{}", day),
            "u1",
            &format!("2024-01-0{}T12:00:00", day),
            &format!("message {}", day),
        ))
        .unwrap();
    }
    let history = st.get_chat_history("u1", 3).unwrap().data.unwrap();
    let ids: Vec<&str> = history.iter().map(|m| m.id.as_str()).collect();
    assert_eq!(ids, ["c4", "c3", "c2"]);
    let all = st.get_chat_history("u1", 100).unwrap().data.unwrap();
    assert_eq!(all.len(), 4);
    let none = st.get_chat_history("u1", 0).unwrap().data.unwrap();
    assert!(none.is_empty());
}

#[test]
fn chat_create_echoes_the_message() {
    let mut st = store_with_user("u1");
    let m = chat("c1", "u1", "2024-01-02T12:00:00", "hello");
    let r = st.create_chat_message(m.clone()).unwrap();
    assert!(r.success);
    assert_eq!(r.data, Some(m));
}

#[test]
fn equal_timestamps_page_consistently() {
    let mut st = store_with_user("u1");
    for n in 1..=3 {
        st.create_food_entry(food(&format!("f{}", n), "u1", "2024-01-10T08:00:00")).unwrap();
    }
    let p1 = st
        .list_food_entries("u1", "2024-01-01T00:00:00", "2024-02-01T00:00:00", 1, 2)
        .unwrap()
        .data
        .unwrap();
    let p2 = st
        .list_food_entries("u1", "2024-01-01T00:00:00", "2024-02-01T00:00:00", 2, 2)
        .unwrap()
        .data
        .unwrap();
    assert_eq!(p1.total, 3);
    assert_eq!(p2.total, 3);
    let mut ids: Vec<String> = p1.items.iter().chain(p2.items.iter()).map(|e| e.id.clone()).collect();
    ids.sort();
    assert_eq!(ids, ["f1", "f2", "f3"]);
}

#[test]
fn far_out_of_range_page_is_empty_with_full_total() {
    let mut st = store_with_user("u1");
    st.create_food_entry(food("f1", "u1", "2024-01-10T08:00:00")).unwrap();
    let page = st
        .list_food_entries("u1", "2024-01-01T00:00:00", "2024-02-01T00:00:00", usize::MAX, usize::MAX)
        .unwrap()
        .data
        .unwrap();
    assert_eq!(page.total, 1);
    assert!(page.items.is_empty());
}
