//! Notices and knowledge-base articles: the defaults of new content, the
//! changes a patch carries, resource-specific not-found answers, and the
//! published list grouped by category in key order.
use vstd::prelude::*;

use crate::error::ApplicationError;
use crate::keyed_map::{keys_unique, KeyedMap};
use crate::text::{chars_of, is_blank, lex_lt, lex_lt_exec, seq_eq, trim, CharSeq};
use crate::text::{lemma_lex_irreflexive, lemma_lex_total, lemma_lex_transitive};

verus! {

/// Whether content is shown to users.
#[derive(Clone, Copy, Debug, Eq, PartialEq, Structural)]
pub enum ContentVisibility {
    Visible,
    Hidden,
}

/// Whether a reader sees the subscriber-only parts of an article.
#[derive(Clone, Copy, Debug, Eq, PartialEq, Structural)]
pub enum KnowledgeAccess {
    Full,
    Restricted,
}

#[derive(Clone, Debug, Eq, PartialEq)]
pub struct Notice {
    pub id: i32,
    pub title: String,
    pub content: String,
    pub visibility: ContentVisibility,
    pub img_url: Option<String>,
    pub tags: Option<Vec<String>>,
    pub created_at: i64,
    pub updated_at: i64,
}

#[derive(Clone, Debug, Eq, PartialEq)]
pub struct KnowledgeSummary {
    pub id: i32,
    pub category: String,
    pub title: String,
    pub sort: Option<i32>,
    pub visibility: ContentVisibility,
    pub updated_at: i64,
}

#[derive(Clone, Debug, Eq, PartialEq)]
pub struct KnowledgeArticle {
    pub id: i32,
    pub language: String,
    pub category: String,
    pub title: String,
    pub body: String,
    pub sort: Option<i32>,
    pub visibility: ContentVisibility,
    pub created_at: i64,
    pub updated_at: i64,
}

#[derive(Clone, Debug, Eq, PartialEq)]
pub struct ContentPage<T> {
    pub items: Vec<T>,
    pub total: i64,
}

#[derive(Clone, Debug, Eq, PartialEq)]
pub struct NoticeCreateInput {
    pub title: String,
    pub content: String,
    pub img_url: Option<String>,
    pub tags: Option<Vec<String>>,
}

#[derive(Clone, Debug, Eq, PartialEq)]
pub struct NewNotice {
    pub title: String,
    pub content: String,
    pub visibility: ContentVisibility,
    pub img_url: Option<String>,
    pub tags: Option<Vec<String>>,
    pub created_at: i64,
    pub updated_at: i64,
}

/// A patch of a nullable column: keep it, clear it, or replace it.
#[derive(Clone, Debug, Eq, PartialEq)]
pub enum NullableUpdate<T> {
    Retain,
    Clear,
    Replace(T),
}

impl<T> Default for NullableUpdate<T> {
    fn default() -> (r: Self)
        ensures
            r is Retain,
    {
        NullableUpdate::Retain
    }
}

#[derive(Clone, Debug, Eq, PartialEq)]
pub struct NoticePatchInput {
    pub title: Option<String>,
    pub content: Option<String>,
    pub img_url: NullableUpdate<String>,
    pub tags: NullableUpdate<Vec<String>>,
    pub visibility: Option<ContentVisibility>,
}

impl Default for NoticePatchInput {
    fn default() -> (r: Self)
        ensures
            r.title is None,
            r.content is None,
            r.img_url is Retain,
            r.tags is Retain,
            r.visibility is None,
    {
        NoticePatchInput {
            title: None,
            content: None,
            img_url: NullableUpdate::Retain,
            tags: NullableUpdate::Retain,
            visibility: None,
        }
    }
}

#[derive(Clone, Debug, Eq, PartialEq)]
pub struct NoticeChanges {
    pub title: Option<String>,
    pub content: Option<String>,
    pub img_url: NullableUpdate<String>,
    pub tags: NullableUpdate<Vec<String>>,
    pub visibility: Option<ContentVisibility>,
    pub updated_at: i64,
}

#[derive(Clone, Debug, Eq, PartialEq)]
pub struct KnowledgeCreateInput {
    pub language: String,
    pub category: String,
    pub title: String,
    pub body: String,
}

#[derive(Clone, Debug, Eq, PartialEq)]
pub struct NewKnowledge {
    pub language: String,
    pub category: String,
    pub title: String,
    pub body: String,
    pub visibility: ContentVisibility,
    pub created_at: i64,
    pub updated_at: i64,
}

#[derive(Clone, Debug, Eq, PartialEq)]
pub struct KnowledgePatchInput {
    pub language: Option<String>,
    pub category: Option<String>,
    pub title: Option<String>,
    pub body: Option<String>,
    pub visibility: Option<ContentVisibility>,
}

impl Default for KnowledgePatchInput {
    fn default() -> (r: Self)
        ensures
            r.language is None,
            r.category is None,
            r.title is None,
            r.body is None,
            r.visibility is None,
    {
        KnowledgePatchInput {
            language: None,
            category: None,
            title: None,
            body: None,
            visibility: None,
        }
    }
}

#[derive(Clone, Debug, Eq, PartialEq)]
pub struct KnowledgeChanges {
    pub language: Option<String>,
    pub category: Option<String>,
    pub title: Option<String>,
    pub body: Option<String>,
    pub visibility: Option<ContentVisibility>,
    pub updated_at: i64,
}

#[derive(Clone, Debug, Eq, PartialEq)]
pub struct KnowledgeSearch {
    pub language: String,
    pub keyword: Option<String>,
}

#[derive(Clone, Copy, Debug, Eq, PartialEq, Structural)]
pub struct NoticePageRequest {
    pub limit: i64,
    pub offset: i64,
}

/// Persistence facts needed for the subscription-access decision.
#[derive(Clone, Debug, Eq, PartialEq)]
pub struct KnowledgeReaderFacts {
    pub user_id: i64,
    pub token: String,
    pub banned: bool,
    pub transfer_enable: i64,
    pub expiry: Option<i64>,
}

#[derive(Clone, Debug, Eq, PartialEq)]
struct KnowledgeReader {
    user_id: i64,
    token: String,
    access: KnowledgeAccess,
}

/// A loaded, access-classified article. The raw body and the access
/// decision stay private, so that the body is only ever handed out
/// rendered.
#[derive(Clone, Debug, Eq, PartialEq)]
pub struct PreparedKnowledgeDetail {
    article: KnowledgeArticle,
    reader: KnowledgeReader,
}

impl PreparedKnowledgeDetail {
    pub closed spec fn spec_user_id(&self) -> i64 {
        self.reader.user_id
    }

    pub closed spec fn spec_token(&self) -> Seq<char> {
        self.reader.token@
    }

    pub closed spec fn spec_access(&self) -> KnowledgeAccess {
        self.reader.access
    }

    pub closed spec fn spec_article(&self) -> KnowledgeArticle {
        self.article
    }

    pub fn user_id(&self) -> (r: i64)
        ensures
            r == self.spec_user_id(),
    {
        self.reader.user_id
    }

    pub fn subscribe_token(&self) -> (r: &str)
        ensures
            r@ == self.spec_token(),
    {
        self.reader.token.as_str()
    }

    pub fn access(&self) -> (r: KnowledgeAccess)
        ensures
            r == self.spec_access(),
    {
        self.reader.access
    }
}

/// Renders an article body for a reader: the template rules belong to the
/// deployment.
pub trait KnowledgeBodyRenderer {
    /// The body `body` renders to for a reader with `access`, the site
    /// values `values` and the subscription token `subscribe_token`.
    spec fn spec_rendered(
        &self,
        body: CharSeq,
        access: KnowledgeAccess,
        values: KnowledgeTemplateContext,
        subscribe_token: CharSeq,
    ) -> CharSeq;

    fn render_knowledge_body(
        &self,
        body: &str,
        access: KnowledgeAccess,
        values: &KnowledgeTemplateContext,
        subscribe_token: &str,
    ) -> (r: String)
        ensures
            r@ == self.spec_rendered(body@, access, *values, subscribe_token@),
    ;
}

impl PreparedKnowledgeDetail {
    /// The article as its reader sees it: the body rendered for the reader's
    /// access and subscription token, every other field as stored.
    pub fn render<T: KnowledgeBodyRenderer>(self, renderer: &T, values: KnowledgeTemplateContext) -> (r:
        KnowledgeArticle)
        ensures
            r.id == self.spec_article().id,
            r.language == self.spec_article().language,
            r.category == self.spec_article().category,
            r.title == self.spec_article().title,
            r.sort == self.spec_article().sort,
            r.visibility == self.spec_article().visibility,
            r.created_at == self.spec_article().created_at,
            r.updated_at == self.spec_article().updated_at,
            r.body@ == renderer.spec_rendered(
                self.spec_article().body@,
                self.spec_access(),
                values,
                self.spec_token(),
            ),
    {
        let PreparedKnowledgeDetail { article, reader } = self;
        let body = renderer.render_knowledge_body(
            article.body.as_str(),
            reader.access,
            &values,
            reader.token.as_str(),
        );
        KnowledgeArticle { body, ..article }
    }
}

#[derive(Clone, Debug, Eq, PartialEq)]
pub struct KnowledgeTemplateContext {
    pub site_name: String,
    pub subscribe_url: String,
    pub percent_encoded_subscribe_url: String,
    pub safe_base64_subscribe_url: String,
}

pub struct ContentService<R> {
    repository: R,
}

impl<R> ContentService<R> {
    pub fn new(repository: R) -> (s: Self)
        ensures
            s.spec_repository() == repository,
    {
        Self { repository }
    }

    pub closed spec fn spec_repository(&self) -> R {
        self.repository
    }

    pub fn repository(&self) -> (r: &R)
        ensures
            *r == self.spec_repository(),
    {
        &self.repository
    }
}

/// A new notice is visible and created and updated now.
pub fn new_notice(input: NoticeCreateInput, now: i64) -> (r: NewNotice)
    ensures
        r == (NewNotice {
            title: input.title,
            content: input.content,
            visibility: ContentVisibility::Visible,
            img_url: input.img_url,
            tags: input.tags,
            created_at: now,
            updated_at: now,
        }),
{
    NewNotice {
        title: input.title,
        content: input.content,
        visibility: ContentVisibility::Visible,
        img_url: input.img_url,
        tags: input.tags,
        created_at: now,
        updated_at: now,
    }
}

/// A notice patch carries the given fields and the update time.
pub fn notice_changes(input: NoticePatchInput, now: i64) -> (r: NoticeChanges)
    ensures
        r == (NoticeChanges {
            title: input.title,
            content: input.content,
            img_url: input.img_url,
            tags: input.tags,
            visibility: input.visibility,
            updated_at: now,
        }),
{
    NoticeChanges {
        title: input.title,
        content: input.content,
        img_url: input.img_url,
        tags: input.tags,
        visibility: input.visibility,
        updated_at: now,
    }
}

/// A new article is hidden until published, and created and updated now.
pub fn new_knowledge(input: KnowledgeCreateInput, now: i64) -> (r: NewKnowledge)
    ensures
        r == (NewKnowledge {
            language: input.language,
            category: input.category,
            title: input.title,
            body: input.body,
            visibility: ContentVisibility::Hidden,
            created_at: now,
            updated_at: now,
        }),
{
    NewKnowledge {
        language: input.language,
        category: input.category,
        title: input.title,
        body: input.body,
        visibility: ContentVisibility::Hidden,
        created_at: now,
        updated_at: now,
    }
}

/// An article patch carries the given fields and the update time.
pub fn knowledge_changes(input: KnowledgePatchInput, now: i64) -> (r: KnowledgeChanges)
    ensures
        r == (KnowledgeChanges {
            language: input.language,
            category: input.category,
            title: input.title,
            body: input.body,
            visibility: input.visibility,
            updated_at: now,
        }),
{
    KnowledgeChanges {
        language: input.language,
        category: input.category,
        title: input.title,
        body: input.body,
        visibility: input.visibility,
        updated_at: now,
    }
}

/// A notice update or deletion that found no row is answered
/// `NoticeNotFound`.
pub fn notice_found(found: bool) -> (r: Result<(), ApplicationError>)
    ensures
        found ==> r is Ok,
        !found ==> r matches Err(ApplicationError::NoticeNotFound),
{
    if found {
        Ok(())
    } else {
        Err(ApplicationError::NoticeNotFound)
    }
}

/// An article update or deletion that found no row is answered
/// `KnowledgeNotFound`.
pub fn knowledge_found(found: bool) -> (r: Result<(), ApplicationError>)
    ensures
        found ==> r is Ok,
        !found ==> r matches Err(ApplicationError::KnowledgeNotFound),
{
    if found {
        Ok(())
    } else {
        Err(ApplicationError::KnowledgeNotFound)
    }
}

/// The operator's article lookup: a missing article is `KnowledgeNotFound`.
pub fn knowledge_or_not_found(article: Option<KnowledgeArticle>) -> (r: Result<
    KnowledgeArticle,
    ApplicationError,
>)
    ensures
        article matches Some(a) ==> (r matches Ok(b) && b == a),
        article is None ==> r matches Err(ApplicationError::KnowledgeNotFound),
{
    match article {
        Some(a) => Ok(a),
        None => Err(ApplicationError::KnowledgeNotFound),
    }
}

/// The published-list search: a blank keyword searches without one.
pub fn knowledge_search(language: String, keyword: Option<String>) -> (r: KnowledgeSearch)
    ensures
        r.language == language,
        match keyword {
            Some(k) => if trim(k@).len() == 0 {
                r.keyword is None
            } else {
                r.keyword == Some(k)
            },
            None => r.keyword is None,
        },
{
    let keyword = match keyword {
        Some(k) => if is_blank(k.as_str()) {
            None
        } else {
            Some(k)
        },
        None => None,
    };
    KnowledgeSearch { language, keyword }
}

/// The rows of `rows` in category `k`, in order.
pub open spec fn in_category(rows: Seq<KnowledgeSummary>, k: Seq<char>) -> Seq<KnowledgeSummary>
    decreases rows.len(),
{
    if rows.len() == 0 {
        seq![]
    } else {
        let rest = in_category(rows.drop_last(), k);
        if rows.last().category@ == k {
            rest.push(rows.last())
        } else {
            rest
        }
    }
}

/// The published list grouped by category: one entry per category that
/// occurs, in ascending key order, each holding that category's rows in
/// their original order.
pub open spec fn grouped_by_category(
    groups: Seq<(String, Vec<KnowledgeSummary>)>,
    rows: Seq<KnowledgeSummary>,
) -> bool {
    &&& forall|a: int, b: int|
        0 <= a < b < groups.len() ==> lex_lt((#[trigger] groups[a]).0@, (#[trigger] groups[b]).0@)
    &&& forall|a: int|
        0 <= a < groups.len() ==> (#[trigger] groups[a]).1@ == in_category(rows, groups[a].0@)
            && groups[a].1@.len() > 0
    &&& forall|t: int| 0 <= t < rows.len() ==> has_group(groups, (#[trigger] rows[t]).category@)
}

/// Whether some group holds the key `k`.
pub open spec fn has_group(groups: Seq<(String, Vec<KnowledgeSummary>)>, k: Seq<char>) -> bool {
    exists|a: int| 0 <= a < groups.len() && (#[trigger] groups[a]).0@ == k
}

fn copy_summary(s: &KnowledgeSummary) -> (r: KnowledgeSummary)
    ensures
        r == *s,
{
    KnowledgeSummary {
        id: s.id,
        category: s.category.clone(),
        title: s.title.clone(),
        sort: s.sort,
        visibility: s.visibility,
        updated_at: s.updated_at,
    }
}

/// Adding a row extends exactly its own category's group.
proof fn lemma_in_category_step(rows: Seq<KnowledgeSummary>, i: int, k: Seq<char>)
    requires
        0 <= i < rows.len(),
    ensures
        in_category(rows.take(i + 1), k) == if rows[i].category@ == k {
            in_category(rows.take(i), k).push(rows[i])
        } else {
            in_category(rows.take(i), k)
        },
{
    assert(rows.take(i + 1).drop_last() == rows.take(i));
    assert(rows.take(i + 1).last() == rows[i]);
}

/// Groups the published rows by category (see [`grouped_by_category`]).
#[verifier::rlimit(40)]
pub fn group_by_category(rows: &Vec<KnowledgeSummary>) -> (r: KeyedMap<Vec<KnowledgeSummary>>)
    ensures
        grouped_by_category(r.spec_entries(), rows@),
{
    let n = rows.len();
    let mut keys: Vec<String> = Vec::new();
    let mut groups: Vec<Vec<KnowledgeSummary>> = Vec::new();
    let mut i: usize = 0;
    while i < n
        invariant
            n == rows@.len(),
            i <= n,
            keys@.len() == groups@.len(),
            forall|a: int, b: int|
                0 <= a < b < keys@.len() ==> lex_lt(#[trigger] keys@[a]@, #[trigger] keys@[b]@),
            forall|a: int|
                0 <= a < keys@.len() ==> (#[trigger] groups@[a])@ == in_category(
                    rows@.take(i as int),
                    keys@[a]@,
                ) && groups@[a]@.len() > 0,
            forall|t: int|
                0 <= t < i ==> exists|a: int|
                    0 <= a < keys@.len() && (#[trigger] keys@[a])@ == (#[trigger] rows@[t]).category@,
        decreases n - i,
    {
        let row = copy_summary(&rows[i]);
        let cat = chars_of(row.category.as_str());
        let ghost k = row.category@;
        let mut p: usize = 0;
        while p < keys.len() && lex_lt_exec(&chars_of(keys[p].as_str()), &cat)
            invariant
                p <= keys@.len(),
                cat@ == k,
                forall|a: int| 0 <= a < p ==> lex_lt(#[trigger] keys@[a]@, k),
            decreases keys@.len() - p,
        {
            p = p + 1;
        }
        let ghost old_keys = keys@;
        let ghost old_groups = groups@;
        proof {
            assert forall|a: int| 0 <= a < keys@.len() implies #[trigger] groups@[a]@ == in_category(
                rows@.take(i as int),
                keys@[a]@,
            ) by {}
        }
        let existing = p < keys.len() && seq_eq(&chars_of(keys[p].as_str()), &cat);
        if existing {
            let mut g = groups.remove(p);
            g.push(row);
            groups.insert(p, g);
            proof {
                assert forall|a: int| 0 <= a < keys@.len() implies (#[trigger] groups@[a])@
                    == in_category(rows@.take(i + 1), keys@[a]@) && groups@[a]@.len() > 0 by {
                    lemma_in_category_step(rows@, i as int, keys@[a]@);
                    if a != p {
                        assert(groups@[a] == old_groups[a]);
                        if a < p {
                            assert(lex_lt(keys@[a]@, k));
                            if keys@[a]@ == k {
                                lemma_lex_irreflexive(k);
                            }
                        } else {
                            assert(lex_lt(keys@[p as int]@, keys@[a]@));
                            if keys@[a]@ == k {
                                lemma_lex_irreflexive(k);
                            }
                        }
                    }
                }
                assert forall|t: int| 0 <= t < i + 1 implies exists|a: int|
                    0 <= a < keys@.len() && (#[trigger] keys@[a])@ == (
                    #[trigger] rows@[t]).category@ by {
                    if t == i {
                        assert(keys@[p as int]@ == rows@[t].category@);
                    }
                }
            }
        } else {
            proof {
                if p < keys@.len() {
                    assert(!lex_lt(keys@[p as int]@, k));
                    lemma_lex_total(keys@[p as int]@, k);
                }
            }
            let key = row.category.clone();
            let mut g: Vec<KnowledgeSummary> = Vec::new();
            g.push(row);
            keys.insert(p, key);
            groups.insert(p, g);
            proof {
                assert forall|a: int, b: int|
                    0 <= a < b < keys@.len() implies lex_lt(
                    #[trigger] keys@[a]@,
                    #[trigger] keys@[b]@,
                ) by {
                    if b < p {
                        assert(lex_lt(old_keys[a]@, old_keys[b]@));
                    } else if b == p {
                        assert(lex_lt(old_keys[a]@, k));
                    } else if a < p {
                        assert(lex_lt(old_keys[a]@, k));
                        assert(lex_lt(k, old_keys[p as int]@));
                        if b - 1 > p {
                            assert(lex_lt(old_keys[p as int]@, old_keys[b - 1]@));
                            lemma_lex_transitive(k, old_keys[p as int]@, old_keys[b - 1]@);
                        }
                        lemma_lex_transitive(old_keys[a]@, k, old_keys[b - 1]@);
                    } else if a == p {
                        assert(lex_lt(k, old_keys[p as int]@));
                        if b - 1 > p {
                            assert(lex_lt(old_keys[p as int]@, old_keys[b - 1]@));
                            lemma_lex_transitive(k, old_keys[p as int]@, old_keys[b - 1]@);
                        }
                    } else {
                        assert(lex_lt(old_keys[a - 1]@, old_keys[b - 1]@));
                    }
                }
                assert forall|a: int| 0 <= a < keys@.len() implies (#[trigger] groups@[a])@
                    == in_category(rows@.take(i + 1), keys@[a]@) && groups@[a]@.len() > 0 by {
                    lemma_in_category_step(rows@, i as int, keys@[a]@);
                    if a == p {
                        assert(keys@[a]@ == k);
                        if in_category(rows@.take(i as int), k).len() > 0 {
                            lemma_in_category_nonempty(rows@.take(i as int), k);
                            let t = choose|t: int|
                                0 <= t < i && #[trigger] rows@.take(i as int)[t].category@ == k;
                            assert(rows@[t].category@ == k);
                            let b = choose|b: int|
                                0 <= b < old_keys.len() && (#[trigger] old_keys[b])@ == (
                                #[trigger] rows@[t]).category@;
                            if b < p {
                                assert(lex_lt(old_keys[b]@, k));
                                lemma_lex_irreflexive(k);
                            } else {
                                assert(lex_lt(k, old_keys[p as int]@));
                                if b > p {
                                    assert(lex_lt(old_keys[p as int]@, old_keys[b]@));
                                    lemma_lex_transitive(k, old_keys[p as int]@, old_keys[b]@);
                                }
                                lemma_lex_irreflexive(k);
                            }
                        }
                        assert(in_category(rows@.take(i as int), k).len() == 0);
                    } else if a < p {
                        assert(groups@[a] == old_groups[a]);
                        assert(keys@[a] == old_keys[a]);
                        assert(lex_lt(old_keys[a]@, k));
                        if old_keys[a]@ == k {
                            lemma_lex_irreflexive(k);
                        }
                    } else {
                        assert(groups@[a] == old_groups[a - 1]);
                        assert(keys@[a] == old_keys[a - 1]);
                        assert(lex_lt(k, old_keys[p as int]@));
                        if a - 1 > p {
                            assert(lex_lt(old_keys[p as int]@, old_keys[a - 1]@));
                            lemma_lex_transitive(k, old_keys[p as int]@, old_keys[a - 1]@);
                        }
                        if old_keys[a - 1]@ == k {
                            lemma_lex_irreflexive(k);
                        }
                    }
                }
                assert forall|t: int| 0 <= t < i + 1 implies exists|a: int|
                    0 <= a < keys@.len() && (#[trigger] keys@[a])@ == (
                    #[trigger] rows@[t]).category@ by {
                    if t == i {
                        assert(keys@[p as int]@ == rows@[t].category@);
                    } else {
                        let b = choose|b: int|
                            0 <= b < old_keys.len() && (#[trigger] old_keys[b])@ == (
                            #[trigger] rows@[t]).category@;
                        if b < p {
                            assert(keys@[b] == old_keys[b]);
                        } else {
                            assert(keys@[b + 1] == old_keys[b]);
                        }
                    }
                }
            }
        }
        i = i + 1;
    }
    let mut pairs: Vec<(String, Vec<KnowledgeSummary>)> = Vec::new();
    let ghost all_keys = keys@;
    let ghost all_groups = groups@;
    assert forall|t: int| 0 <= t < rows@.len() implies exists|b: int|
        0 <= b < all_keys.len() && (#[trigger] all_keys[b])@ == (#[trigger] rows@[t]).category@ by {
        let a = choose|a: int|
            0 <= a < keys@.len() && (#[trigger] keys@[a])@ == (#[trigger] rows@[t]).category@;
        assert(all_keys[a] == keys@[a]);
    }
    while keys.len() > 0
        invariant
            forall|t: int|
                0 <= t < rows@.len() ==> exists|b: int|
                    0 <= b < all_keys.len() && (#[trigger] all_keys[b])@ == (
                    #[trigger] rows@[t]).category@,
            keys@.len() == groups@.len(),
            keys@.len() + pairs@.len() == all_keys.len(),
            all_keys.len() == all_groups.len(),
            forall|a: int|
                0 <= a < keys@.len() ==> keys@[a] == all_keys[pairs@.len() + a] && groups@[a]
                    == all_groups[pairs@.len() + a],
            forall|a: int|
                0 <= a < pairs@.len() ==> (#[trigger] pairs@[a]).0 == all_keys[a] && pairs@[a].1
                    == all_groups[a],
        decreases keys@.len(),
    {
        let k = keys.remove(0);
        let g = groups.remove(0);
        pairs.push((k, g));
    }
    proof {
        assert(pairs@.len() == all_keys.len());
        assert forall|a: int, b: int| 0 <= a < b < pairs@.len() implies (
        #[trigger] pairs@[a]).0@ != (#[trigger] pairs@[b]).0@ by {
            assert(lex_lt(all_keys[a]@, all_keys[b]@));
            if all_keys[a]@ == all_keys[b]@ {
                lemma_lex_irreflexive(all_keys[a]@);
            }
        }
        assert(keys_unique(pairs@));
    }
    let m = KeyedMap::from_distinct(pairs);
    proof {
        assert forall|a: int, b: int| 0 <= a < b < m.spec_entries().len() implies lex_lt(
            (#[trigger] m.spec_entries()[a]).0@,
            (#[trigger] m.spec_entries()[b]).0@,
        ) by {
            assert(m.spec_entries()[a].0 == all_keys[a]);
            assert(m.spec_entries()[b].0 == all_keys[b]);
        }
        assert forall|t: int| 0 <= t < rows@.len() implies has_group(
            m.spec_entries(),
            (#[trigger] rows@[t]).category@,
        ) by {
            let b = choose|b: int|
                0 <= b < all_keys.len() && (#[trigger] all_keys[b])@ == (
                #[trigger] rows@[t]).category@;
            assert(m.spec_entries()[b].0 == all_keys[b]);
            assert(0 <= b < m.spec_entries().len() && m.spec_entries()[b].0@ == rows@[t].category@);
        }
        assert(rows@.take(n as int) == rows@);
        assert forall|a: int| 0 <= a < m.spec_entries().len() implies (
        #[trigger] m.spec_entries()[a]).1@ == in_category(rows@, m.spec_entries()[a].0@)
            && m.spec_entries()[a].1@.len() > 0 by {
            assert(m.spec_entries()[a].1 == all_groups[a]);
            assert(all_groups[a]@ == in_category(rows@.take(n as int), all_keys[a]@));
        }
    }
    m
}

/// A category with rows has a row in that category.
proof fn lemma_in_category_nonempty(rows: Seq<KnowledgeSummary>, k: Seq<char>)
    requires
        in_category(rows, k).len() > 0,
    ensures
        exists|t: int| 0 <= t < rows.len() && #[trigger] rows[t].category@ == k,
    decreases rows.len(),
{
    if rows.last().category@ == k {
        assert(rows[rows.len() - 1].category@ == k);
    } else {
        lemma_in_category_nonempty(rows.drop_last(), k);
        let t = choose|t: int| 0 <= t < rows.drop_last().len() && #[trigger] rows.drop_last()[t].category@ == k;
        assert(rows[t] == rows.drop_last()[t]);
    }
}

/// Full access for a reader whose subscription is available, restricted
/// otherwise.
pub fn knowledge_access(available: bool) -> (r: KnowledgeAccess)
    ensures
        available ==> r == KnowledgeAccess::Full,
        !available ==> r == KnowledgeAccess::Restricted,
{
    if available {
        KnowledgeAccess::Full
    } else {
        KnowledgeAccess::Restricted
    }
}

/// The published detail request: the reader is looked up first and a
/// missing one is `ReaderNotFound`; then a missing article is
/// `ArticleNotFound`; otherwise the article is classified by the reader's
/// availability.
pub fn prepare_knowledge_detail(
    reader: Option<KnowledgeReaderFacts>,
    article: Option<KnowledgeArticle>,
    available: bool,
) -> (r: Result<PreparedKnowledgeDetail, ApplicationError>)
    ensures
        reader is None ==> r matches Err(ApplicationError::ReaderNotFound),
        reader is Some && article is None ==> r matches Err(ApplicationError::ArticleNotFound),
        match (reader, article) {
            (Some(f), Some(a)) => r matches Ok(d) && d.spec_user_id() == f.user_id
                && d.spec_token() == f.token@ && d.spec_article() == a && d.spec_access() == (
            if available {
                KnowledgeAccess::Full
            } else {
                KnowledgeAccess::Restricted
            }),
            _ => true,
        },
{
    let facts = match reader {
        Some(f) => f,
        None => return Err(ApplicationError::ReaderNotFound),
    };
    let article = match article {
        Some(a) => a,
        None => return Err(ApplicationError::ArticleNotFound),
    };
    let access = knowledge_access(available);
    Ok(
        PreparedKnowledgeDetail {
            article,
            reader: KnowledgeReader { user_id: facts.user_id, token: facts.token, access },
        },
    )
}

} // verus!
