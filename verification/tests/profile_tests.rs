use ygg_admin::profile::{
    change_failed_text, identity_label, password_note, profile_dirty, profile_registered_line,
    profile_update, registered_line, save_hint, save_profile_disabled, seed_draft, PasswordForm,
    ProfileForm, SaveHint, SavedProfile,
};

fn user() -> SavedProfile {
    SavedProfile {
        username: "admin".to_string(),
        email: "a@b.c".to_string(),
        display_name: Some("Ygg".to_string()),
        avatar_url: None,
        created_at: 1709214330,
    }
}

#[test]
fn seeded_form_is_clean() {
    let u = user();
    let d = seed_draft(&u);
    assert_eq!(d.display_name, "Ygg");
    assert!(!profile_dirty(&Some(u), &d));
}

#[test]
fn changes_are_compared_trimmed() {
    let u = user();
    let mut d = seed_draft(&u);
    d.email = "  a@b.c ".to_string();
    assert!(!profile_dirty(&Some(user()), &d));
    d.avatar = Some("/uploads/me.png".to_string());
    assert!(profile_dirty(&Some(u), &d));
    assert!(!profile_dirty(&None, &d));
}

#[test]
fn identity_card() {
    assert_eq!(identity_label("  ", "admin"), "admin");
    assert_eq!(identity_label(" Ygg ", "admin"), "Ygg");
    assert_eq!(registered_line("2024-02-29"), "注册于 2024-02-29");
    assert_eq!(profile_registered_line(&user()), Some("注册于 2024-02-29".to_string()));
}

#[test]
fn save_button_and_hint() {
    assert_eq!(save_hint(true, true), SaveHint::Saved);
    assert_eq!(save_hint(false, true), SaveHint::Unsaved);
    assert_eq!(save_hint(false, false), SaveHint::Blank);
    assert!(save_profile_disabled(false, false, false));
    assert!(save_profile_disabled(true, false, true));
    assert!(!save_profile_disabled(true, false, false));
}

#[test]
fn save_sends_trimmed_values() {
    let mut d = seed_draft(&user());
    d.email = " x@y.z ".to_string();
    d.display_name = "  ".to_string();
    let r = profile_update(&d);
    assert_eq!(r.email, "x@y.z");
    assert_eq!(r.display_name, Some(String::new()));
}

#[test]
fn form_cycle() {
    let mut f = ProfileForm::new();
    f.loaded(user());
    f.edit_display_name("New".to_string());
    assert!(!f.just_saved);
    let mut normalized = user();
    normalized.display_name = Some("New".to_string());
    f.save_accepted(Some(normalized), "已保存".to_string());
    assert!(f.just_saved);
    assert_eq!(f.draft.display_name, "New");
    assert_eq!(f.toast, Some(("已保存".to_string(), false)));
    f.toast_elapsed("其他");
    assert!(f.toast.is_some());
    f.toast_elapsed("已保存");
    assert!(f.toast.is_none());
    f.save_failed("网络");
    assert_eq!(f.toast, Some(("保存失败：网络".to_string(), true)));
    f.load_failed("x");
    assert_eq!(f.toast, Some(("加载失败：x".to_string(), true)));
}

#[test]
fn password_rules() {
    let mut p = PasswordForm::new();
    p.current = "old".to_string();
    p.new = "1234567".to_string();
    p.confirm = "1234567".to_string();
    assert!(!p.can_submit());
    p.new = "12345678".to_string();
    assert!(p.mismatch());
    assert!(!p.can_submit());
    p.confirm = "12345678".to_string();
    assert!(!p.mismatch());
    assert!(p.can_submit());
    // Length counts bytes: three CJK characters are nine.
    p.new = "密码长".to_string();
    p.confirm = "密码长".to_string();
    assert!(p.can_submit());
    p.changed();
    assert!(p.current.is_empty() && p.new.is_empty() && p.confirm.is_empty());
    assert_eq!(change_failed_text("x"), "修改失败：x");
    assert!(password_note(true).contains("ADMIN_*"));
}
