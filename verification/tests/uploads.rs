use seco::controllers::seller_verification::{
    accepts_upload, check_existing_verification, is_id_card_field, verification_storage_key, VerificationUploads,
};
use seco::controllers::upload::{
    image_key_of, recorded_image_path, stored_image_path_of, unique_filename_candidate, unique_filename_step, NameSearch,
};
use seco::controllers::user::{image_file_name, product_field, ProductField, ProductForm};
use seco::error::ApiError;
use seco::models::seller_verifications::{Model, VerificationStatus};
use seco::models::ActiveValue;

#[test]
fn first_candidate_is_the_name_itself() {
    assert_eq!(unique_filename_candidate("photo.jpg", 0).as_deref(), Some("photo.jpg"));
    assert_eq!(unique_filename_candidate("noext", 0).as_deref(), Some("noext"));
}

#[test]
fn later_candidates_number_the_name_before_its_first_dot() {
    assert_eq!(unique_filename_candidate("photo.jpg", 1).as_deref(), Some("photo_001.jpg"));
    assert_eq!(unique_filename_candidate("photo.jpg", 12).as_deref(), Some("photo_012.jpg"));
    assert_eq!(unique_filename_candidate("photo.jpg", 1234).as_deref(), Some("photo_1234.jpg"));
    assert_eq!(unique_filename_candidate("a.tar.gz", 2).as_deref(), Some("a_002.tar.gz"));
    assert_eq!(unique_filename_candidate(".hidden", 3).as_deref(), Some("_003.hidden"));
    assert_eq!(unique_filename_candidate("foto \u{e9}.png", 5).as_deref(), Some("foto \u{e9}_005.png"));
}

#[test]
fn names_without_a_dot_have_no_later_candidate() {
    assert_eq!(unique_filename_candidate("noext", 1), None);
}

#[test]
fn candidates_never_repeat() {
    let mut seen = std::collections::HashSet::new();
    for counter in 0..1500u32 {
        let c = unique_filename_candidate("img.png", counter).unwrap();
        assert!(seen.insert(c));
    }
}

#[test]
fn image_paths() {
    assert_eq!(stored_image_path_of(5, "x.png"), "storage-uploads/product_images/5/x.png");
    assert_eq!(image_key_of(5, "x_001.png"), "product_images/5/x_001.png");
    assert_eq!(image_key_of(-2, "y"), "product_images/-2/y");
    assert_eq!(recorded_image_path(Some("product_images/5/x.png".to_string())), "product_images/5/x.png");
    assert_eq!(recorded_image_path(None), "default_path.txt");
}

#[test]
fn verification_keys_name_user_field_time_and_extension() {
    assert_eq!(
        verification_storage_key(7, Some("face_photo"), Some("me.png"), 1700000000),
        "seller_verifications/7/7_face_photo_1700000000.png"
    );
    assert_eq!(
        verification_storage_key(7, Some("ktp_photo"), None, 5),
        "seller_verifications/7/7_ktp_photo_5.jpg"
    );
    assert_eq!(
        verification_storage_key(7, None, Some("noext"), 5),
        "seller_verifications/7/7__5.jpg"
    );
    assert_eq!(
        verification_storage_key(7, Some("x"), Some("a.tar.gz"), -1),
        "seller_verifications/7/7_x_-1.gz"
    );
    assert_eq!(
        verification_storage_key(7, Some("x"), Some(".bashrc"), 1),
        "seller_verifications/7/7_x_1.jpg"
    );
}

#[test]
fn empty_uploads_are_skipped() {
    assert!(!accepts_upload(0));
    assert!(accepts_upload(1));
}

fn existing(status: VerificationStatus) -> Model {
    Model {
        id: 1,
        user_id: 7,
        face_photo: "f".to_string(),
        ktp_photo: "k".to_string(),
        face_ktp_photo: "fk".to_string(),
        domicile_photo: "d".to_string(),
        ktp_text: None,
        status,
        reject_reason: None,
    }
}

#[test]
fn pending_or_approved_requests_block_a_new_one() {
    assert!(check_existing_verification(None).is_ok());
    assert!(check_existing_verification(Some(&existing(VerificationStatus::Rejected))).is_ok());
    for s in [VerificationStatus::Pending, VerificationStatus::Approved] {
        match check_existing_verification(Some(&existing(s))) {
            Err(ApiError::BadRequest(m)) => assert_eq!(m, "Verification already exists or is pending"),
            other => panic!("{:?}", other),
        }
    }
}

#[test]
fn every_photo_is_required_in_order() {
    let mut u = VerificationUploads::new();
    assert!(is_id_card_field("ktp_photo"));
    assert!(!is_id_card_field("face_photo"));
    let expect = |u: VerificationUploads, m: &str| match u.finish(7) {
        Err(ApiError::BadRequest(got)) => assert_eq!(got, m),
        other => panic!("{:?}", other),
    };
    expect(VerificationUploads::new(), "face_photo is required");
    u.record_photo("face_photo", "a".to_string());
    u.record_photo("unrelated", "z".to_string());
    let mut v = VerificationUploads::new();
    v.record_photo("face_photo", "a".to_string());
    expect(v, "ktp_photo is required");
    u.record_photo("ktp_photo", "b".to_string());
    let mut w = VerificationUploads::new();
    w.record_photo("face_photo", "a".to_string());
    w.record_photo("ktp_photo", "b".to_string());
    expect(w, "face_ktp_photo is required");
    u.record_photo("face_ktp_photo", "c".to_string());
    let mut x = VerificationUploads::new();
    x.record_photo("face_photo", "a".to_string());
    x.record_photo("ktp_photo", "b".to_string());
    x.record_photo("face_ktp_photo", "c".to_string());
    expect(x, "domicile_photo is required");
    u.record_photo("domicile_photo", "d0".to_string());
    u.record_photo("domicile_photo", "d".to_string());
    let m = u.finish(7).unwrap();
    assert_eq!(m.user_id, ActiveValue::Changed(7));
    assert_eq!(m.face_photo, ActiveValue::Changed("a".to_string()));
    assert_eq!(m.ktp_photo, ActiveValue::Changed("b".to_string()));
    assert_eq!(m.face_ktp_photo, ActiveValue::Changed("c".to_string()));
    assert_eq!(m.domicile_photo, ActiveValue::Changed("d".to_string()));
    assert_eq!(m.ktp_text, ActiveValue::Changed(Some(String::new())));
    assert_eq!(m.status, ActiveValue::Changed(VerificationStatus::Pending));
}

#[test]
fn id_card_text_is_kept() {
    let mut u = VerificationUploads::new();
    for f in ["face_photo", "ktp_photo", "face_ktp_photo", "domicile_photo"] {
        u.record_photo(f, format!("k/{}", f));
    }
    u.record_id_card_text("NIK 3201".to_string());
    assert_eq!(u.finish(1).unwrap().ktp_text, ActiveValue::Changed(Some("NIK 3201".to_string())));
}

#[test]
fn product_form_routes_fields_and_needs_a_product() {
    assert_eq!(product_field(Some("product")), ProductField::Product);
    assert_eq!(product_field(Some("files")), ProductField::Files);
    assert_eq!(product_field(Some("other")), ProductField::Other);
    assert_eq!(product_field(None), ProductField::Other);
    match image_file_name(None) {
        Err(ApiError::BadRequest(m)) => assert_eq!(m, "file name not found"),
        other => panic!("{:?}", other),
    }
    assert_eq!(image_file_name(Some("a.png".to_string())).unwrap(), "a.png");

    let mut form: ProductForm<&str, Vec<u8>> = ProductForm::new();
    form.accept_file("a.png".to_string(), vec![1]);
    match ProductForm::<&str, Vec<u8>>::new().finish() {
        Err(ApiError::BadRequest(m)) => assert_eq!(m, "product data not found in multipart"),
        other => panic!("{:?}", other.map(|(p, _)| p)),
    }
    form.accept_product("first");
    form.accept_product("second");
    form.accept_file("b.png".to_string(), vec![2]);
    let (p, files) = form.finish().unwrap();
    assert_eq!(p, "second");
    let names: Vec<&str> = files.iter().map(|f| f.file_name.as_str()).collect();
    assert_eq!(names, ["a.png", "b.png"]);
}

fn search(base: &str, taken: &[&str]) -> Option<String> {
    let mut counter = 0u32;
    loop {
        let candidate = unique_filename_candidate(base, counter)?;
        match unique_filename_step(base, counter, taken.contains(&candidate.as_str()))? {
            NameSearch::Found(name) => return Some(name),
            NameSearch::Next(next) => counter = next,
        }
    }
}

#[test]
fn the_search_takes_the_first_free_name() {
    assert_eq!(search("photo.jpg", &[]).as_deref(), Some("photo.jpg"));
    assert_eq!(search("photo.jpg", &["photo.jpg"]).as_deref(), Some("photo_001.jpg"));
    assert_eq!(search("photo.jpg", &["photo.jpg", "photo_001.jpg", "photo_003.jpg"]).as_deref(), Some("photo_002.jpg"));
    assert_eq!(search("noext", &[]).as_deref(), Some("noext"));
    assert!(search("noext", &["noext"]).is_none());
    assert!(unique_filename_step("photo.jpg", u32::MAX, true).is_none());
    assert!(matches!(unique_filename_step("photo.jpg", 4, true), Some(NameSearch::Next(5))));
}
