use ygg_admin::mcp::{
    copied_toast, copy_label, create_label, create_request, lifetime_option, scope_name, scope_option,
    status_label, token_dates, token_row_delay, token_status, ConfigBody, ConfigCard, McpPage,
    Stamp, TokenLifetime, TokenScope, TokenStatus, TokenSummary,
};

fn token() -> TokenSummary {
    TokenSummary {
        id: "t1".to_string(),
        name: "cli".to_string(),
        scope: TokenScope::Write,
        created_at: 0,
        expires_at: Some(Stamp { secs: 1709214330, nanos: 500_000_000 }),
        last_used_at: None,
        revoked_at: None,
    }
}

#[test]
fn token_status_at_a_time() {
    let t = token();
    assert_eq!(token_status(&t, Stamp { secs: 1709214329, nanos: 999_999_999 }), TokenStatus::Active);
    assert_eq!(token_status(&t, Stamp { secs: 1709214331, nanos: 0 }), TokenStatus::Expired);
    let mut r = token();
    r.revoked_at = Some(5);
    assert_eq!(token_status(&r, Stamp { secs: 0, nanos: 0 }), TokenStatus::Revoked);
    let mut n = token();
    n.expires_at = None;
    assert_eq!(token_status(&n, Stamp { secs: i64::MAX, nanos: 0 }), TokenStatus::Active);
    assert_eq!(status_label(TokenStatus::Expired), "已过期");
}

#[test]
fn token_expiry_within_its_second() {
    let t = token();
    assert_eq!(token_status(&t, Stamp { secs: 1709214330, nanos: 400_000_000 }), TokenStatus::Active);
    assert_eq!(token_status(&t, Stamp { secs: 1709214330, nanos: 500_000_000 }), TokenStatus::Active);
    assert_eq!(token_status(&t, Stamp { secs: 1709214330, nanos: 600_000_000 }), TokenStatus::Expired);
}

#[test]
fn token_row_dates() {
    let d = token_dates(&token()).unwrap();
    assert_eq!(d.created, "1970-01-01");
    assert_eq!(d.expires, "2024-02-29");
    assert_eq!(d.last_used, "—");
    let mut t = token();
    t.expires_at = None;
    t.last_used_at = Some(1709214330);
    let d = token_dates(&t).unwrap();
    assert_eq!(d.expires, "永不过期");
    assert_eq!(d.last_used, "2024-02-29 13:45");
}

#[test]
fn select_texts() {
    assert_eq!(scope_name(TokenScope::Admin), "admin");
    assert_eq!(scope_option(TokenScope::Read), "read — 仅查询已发布文章");
    assert_eq!(lifetime_option(TokenLifetime::Never), "永不过期");
    assert_eq!(lifetime_option(TokenLifetime::Days30), "30 天");
    assert_eq!(token_row_delay(3), 120);
}

#[test]
fn one_time_plaintext_and_config_token() {
    let mut p = McpPage::new();
    p.created("ygg_abc".to_string());
    assert_eq!(p.reload_gen, 1);
    p.use_created_for_config();
    assert_eq!(p.config_token, Some("ygg_abc".to_string()));
    assert_eq!(p.created_plaintext, None);
    assert_eq!(p.toast, Some(("已选为配置令牌".to_string(), false)));
    p.reveal_answered("t1".to_string(), Ok(Some("ygg_x".to_string())));
    assert_eq!(p.revealed, Some(("t1".to_string(), "ygg_x".to_string())));
    p.use_revealed_for_config();
    assert_eq!(p.config_token, Some("ygg_x".to_string()));
    assert_eq!(p.revealed, None);
}

#[test]
fn failure_toasts() {
    let mut p = McpPage::new();
    p.reveal_answered("t".to_string(), Ok(None));
    assert_eq!(p.toast, Some(("无法解密该令牌".to_string(), true)));
    p.config_reveal_answered(Err("e".to_string()));
    assert_eq!(p.toast, Some(("重查失败：e".to_string(), true)));
    p.revoke_answered(Err("x".to_string()));
    assert_eq!(p.toast, Some(("撤销失败：x".to_string(), true)));
    p.revoke_answered(Ok(()));
    assert_eq!(p.toast, Some(("已撤销".to_string(), false)));
    assert_eq!(p.reload_gen, 1);
    p.create_failed("dup");
    assert_eq!(p.toast, Some(("创建失败：dup".to_string(), true)));
    p.list_failed("db");
    assert_eq!(p.toast, Some(("加载失败：db".to_string(), true)));
}

#[test]
fn create_form() {
    assert_eq!(create_request(false, "  cli  "), Some("cli".to_string()));
    assert_eq!(create_request(false, "   "), None);
    assert_eq!(create_request(true, "cli"), None);
    assert_eq!(create_label(true), "创建中…");
}

#[test]
fn configuration_card() {
    let mut c = ConfigCard::new();
    assert_eq!(c.body(), ConfigBody::Hint);
    assert_eq!(c.token_chosen("ygg_a".to_string()), "ygg_a");
    assert_eq!(c.manual_token, "ygg_a");
    assert_eq!(c.body(), ConfigBody::Skeleton);
    assert_eq!(c.manual_input("ygg_b".to_string()), None);
    assert_eq!(c.configs_answered(Ok(vec![])), None);
    assert_eq!(c.body(), ConfigBody::Snippets);
    assert_eq!(c.manual_input(" ygg_c ".to_string()), Some(" ygg_c ".to_string()));
    assert_eq!(c.configs_answered(Err("bad".to_string())), Some("配置生成失败：bad".to_string()));
    assert_eq!(c.manual_input("  ".to_string()), None);
    assert!(c.configs.is_none());
    assert_eq!(copy_label(true), "已复制");
    assert_eq!(copied_toast("Cursor"), "已复制：Cursor");
}
