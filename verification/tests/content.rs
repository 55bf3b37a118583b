use v2board_application::text::CharSeq;
use v2board_application::content::{
    group_by_category, knowledge_changes, knowledge_found, knowledge_or_not_found,
    knowledge_search, new_knowledge, new_notice, notice_changes, notice_found,
    prepare_knowledge_detail, ContentVisibility, KnowledgeAccess, KnowledgeArticle,
    KnowledgeBodyRenderer, KnowledgeTemplateContext, KnowledgeCreateInput, KnowledgePatchInput, KnowledgeReaderFacts, KnowledgeSummary,
    NoticeCreateInput, NoticePatchInput, NullableUpdate,
};
use v2board_application::ApplicationError;

fn summary(id: i32, category: &str, title: &str) -> KnowledgeSummary {
    KnowledgeSummary {
        id,
        category: category.to_string(),
        title: title.to_string(),
        sort: Some(id),
        visibility: ContentVisibility::Visible,
        updated_at: i64::from(id),
    }
}

fn article(body: &str) -> KnowledgeArticle {
    KnowledgeArticle {
        id: 7,
        language: "en-US".to_string(),
        category: "Guides".to_string(),
        title: "Setup".to_string(),
        body: body.to_string(),
        sort: Some(1),
        visibility: ContentVisibility::Visible,
        created_at: 10,
        updated_at: 20,
    }
}

#[test]
fn create_defaults_are_application_policy_not_database_defaults() {
    let notice = new_notice(
        NoticeCreateInput {
            title: "Notice".to_string(),
            content: "Body".to_string(),
            img_url: None,
            tags: None,
        },
        42,
    );
    assert_eq!(notice.visibility, ContentVisibility::Visible);
    assert_eq!((notice.created_at, notice.updated_at), (42, 42));
    let knowledge = new_knowledge(
        KnowledgeCreateInput {
            language: "en-US".to_string(),
            category: "Guides".to_string(),
            title: "Setup".to_string(),
            body: "Body".to_string(),
        },
        43,
    );
    assert_eq!(knowledge.visibility, ContentVisibility::Hidden);
    assert_eq!((knowledge.created_at, knowledge.updated_at), (43, 43));
}

#[test]
fn published_list_grouping_is_application_owned() {
    let search = knowledge_search("en-US".to_string(), Some("   ".to_string()));
    assert_eq!(search.keyword, None);
    assert_eq!(search.language, "en-US");
    let grouped = group_by_category(&vec![summary(1, "Apps", "One"), summary(2, "Billing", "Two")]);
    let keys: Vec<String> = grouped.entries().iter().map(|(key, _)| key.clone()).collect();
    assert_eq!(keys, ["Apps", "Billing"]);
}

#[test]
fn grouping_sorts_keys_and_keeps_row_order_within_a_group() {
    let rows = vec![
        summary(1, "b", "first b"),
        summary(2, "a", "first a"),
        summary(3, "b", "second b"),
        summary(4, "B", "capital"),
        summary(5, "a", "second a"),
    ];
    let grouped = group_by_category(&rows);
    let entries = grouped.entries();
    let keys: Vec<&str> = entries.iter().map(|(key, _)| key.as_str()).collect();
    assert_eq!(keys, ["B", "a", "b"]);
    let ids = |key: &str| -> Vec<i32> {
        grouped.get(key).unwrap().iter().map(|row| row.id).collect()
    };
    assert_eq!(ids("a"), vec![2, 5]);
    assert_eq!(ids("b"), vec![1, 3]);
    assert_eq!(ids("B"), vec![4]);
    assert!(group_by_category(&Vec::new()).is_empty());
}

#[test]
fn a_keyword_with_text_is_kept() {
    let search = knowledge_search("zh-CN".to_string(), Some(" vpn ".to_string()));
    assert_eq!(search.keyword.as_deref(), Some(" vpn "));
    assert_eq!(knowledge_search("zh-CN".to_string(), None).keyword, None);
}

#[test]
fn resource_specific_not_found_outcomes_survive_the_port_boundary() {
    assert!(matches!(notice_found(false), Err(ApplicationError::NoticeNotFound)));
    assert!(matches!(knowledge_or_not_found(None), Err(ApplicationError::KnowledgeNotFound)));
    assert!(matches!(knowledge_found(false), Err(ApplicationError::KnowledgeNotFound)));
    assert!(notice_found(true).is_ok());
    assert_eq!(knowledge_or_not_found(Some(article("x"))).unwrap().id, 7);
}

#[test]
fn patches_carry_their_fields_and_the_time() {
    let changes = notice_changes(
        NoticePatchInput {
            title: Some("T".to_string()),
            img_url: NullableUpdate::Clear,
            ..NoticePatchInput::default()
        },
        9,
    );
    assert_eq!(changes.title.as_deref(), Some("T"));
    assert_eq!(changes.img_url, NullableUpdate::Clear);
    assert_eq!(changes.tags, NullableUpdate::Retain);
    assert_eq!(changes.updated_at, 9);
    let changes = knowledge_changes(
        KnowledgePatchInput { visibility: Some(ContentVisibility::Visible), ..KnowledgePatchInput::default() },
        11,
    );
    assert_eq!(changes.visibility, Some(ContentVisibility::Visible));
    assert_eq!(changes.language, None);
    assert_eq!(changes.updated_at, 11);
}

#[test]
fn prepared_detail_checks_the_reader_before_the_article() {
    let reader = KnowledgeReaderFacts {
        user_id: 9,
        token: "token".to_string(),
        banned: true,
        transfer_enable: 100,
        expiry: None,
    };
    assert!(matches!(
        prepare_knowledge_detail(None, None, true),
        Err(ApplicationError::ReaderNotFound)
    ));
    assert!(matches!(
        prepare_knowledge_detail(Some(reader.clone()), None, true),
        Err(ApplicationError::ArticleNotFound)
    ));
    let prepared = prepare_knowledge_detail(Some(reader), Some(article("body")), false).unwrap();
    assert_eq!(prepared.user_id(), 9);
    assert_eq!(prepared.subscribe_token(), "token");
    assert_eq!(prepared.access(), KnowledgeAccess::Restricted);
}

struct Tagging;

impl KnowledgeBodyRenderer for Tagging {
    fn spec_rendered(
        &self,
        _body: CharSeq,
        _access: KnowledgeAccess,
        _values: KnowledgeTemplateContext,
        _subscribe_token: CharSeq,
    ) -> CharSeq {
        unreachable!("a specification is never run")
    }

    fn render_knowledge_body(
        &self,
        body: &str,
        access: KnowledgeAccess,
        values: &KnowledgeTemplateContext,
        subscribe_token: &str,
    ) -> String {
        format!("{body}|{access:?}|{}|{subscribe_token}", values.site_name)
    }
}

#[test]
fn rendering_replaces_only_the_body() {
    let reader = KnowledgeReaderFacts {
        user_id: 4,
        token: "tok".to_string(),
        banned: false,
        transfer_enable: 1,
        expiry: None,
    };
    let prepared = prepare_knowledge_detail(Some(reader), Some(article("raw")), true).unwrap();
    let rendered = prepared.render(
        &Tagging,
        KnowledgeTemplateContext {
            site_name: "Site".to_string(),
            subscribe_url: "https://s".to_string(),
            percent_encoded_subscribe_url: "https%3A".to_string(),
            safe_base64_subscribe_url: "aHR0".to_string(),
        },
    );
    let original = article("raw");
    assert_eq!(rendered.body, "raw|Full|Site|tok");
    assert_eq!(rendered.id, original.id);
    assert_eq!(rendered.title, original.title);
    assert_eq!(rendered.category, original.category);
    assert_eq!(rendered.created_at, original.created_at);
}
