use back::upload::{date_path, file_extension, plan_upload, upload_target, CalendarDate};

#[test]
fn extension_from_mime() {
    assert_eq!(file_extension("image/png"), "png");
    assert_eq!(file_extension("image/jpeg"), "jpg");
    assert_eq!(file_extension("nonsense"), "dat");
    assert_eq!(file_extension("notareal/mimetype"), "dat");
}

#[test]
fn day_directories() {
    assert_eq!(date_path(&CalendarDate { year: 2024, month: 3, day: 7 }), "2024/03/07");
    assert_eq!(date_path(&CalendarDate { year: 812, month: 12, day: 31 }), "0812/12/31");
    assert_eq!(date_path(&CalendarDate { year: 12345, month: 1, day: 1 }), "+12345/01/01");
    assert_eq!(date_path(&CalendarDate { year: -5, month: 1, day: 1 }), "-0005/01/01");
}

#[test]
fn target_paths() {
    let t = upload_target("image/jpeg", &CalendarDate { year: 2025, month: 10, day: 19 }, "abc");
    assert_eq!(t.dir, "2025/10/19");
    assert_eq!(t.file_name, "abc.jpg");
    assert_eq!(t.public_path, "/images/2025/10/19/abc.jpg");
}

#[test]
fn planned_upload_is_fresh() {
    let a = plan_upload("image/png");
    let b = plan_upload("image/png");
    assert!(a.file_name.ends_with(".png"));
    assert_eq!(a.file_name.len(), 40);
    assert_eq!(a.public_path, format!("/images/{}/{}", a.dir, a.file_name));
    assert_eq!(a.dir.len(), 10);
    assert_ne!(a.file_name, b.file_name);
}
