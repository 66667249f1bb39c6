//! The GraphQL documents the CLI sends: the fields asked for each kind of
//! record, and the shapes of the list, get and mutation requests.

use vstd::prelude::*;

verus! {

pub const ISSUE_FIELDS: &'static str = "
    id identifier title description priority priorityLabel estimate dueDate
    createdAt updatedAt completedAt canceledAt archivedAt startedAt
    branchName number url trashed
    state { id name type color }
    assignee { id name displayName email }
    creator { id name displayName email }
    team { id name key }
    project { id name slugId }
    cycle { id number name }
    parent { id identifier title }
    labels { nodes { id name color } }
";

pub const ATTACHMENT_FIELDS: &'static str = "
    id title subtitle url sourceType createdAt updatedAt archivedAt
    creator { id name displayName email }
    issue { id identifier title }
";

pub const CYCLE_FIELDS: &'static str = "
    id number name description startsAt endsAt completedAt progress
    isActive isNext isPrevious isPast isFuture createdAt updatedAt archivedAt
    team { id name key }
";

pub const DOC_FIELDS: &'static str = "
    id title slugId content icon color createdAt updatedAt archivedAt trashed url
    creator { id name displayName email }
    updatedBy { id name displayName email }
    project { id name slugId }
    team { id name key }
";

pub const INITIATIVE_FIELDS: &'static str = "
    id name slugId description status color icon targetDate
    createdAt updatedAt archivedAt trashed url
    owner { id name displayName email }
    creator { id name displayName email }
";

pub const LABEL_FIELDS: &'static str = "
    id name color description isGroup createdAt updatedAt archivedAt
    team { id name key }
    parent { id name color }
";

pub const MILESTONE_FIELDS: &'static str = "
    id name description status targetDate progress createdAt updatedAt archivedAt
    project { id name slugId }
";

pub const PROJECT_FIELDS: &'static str = "
    id name slugId description icon color priority priorityLabel progress
    startDate targetDate startedAt completedAt canceledAt createdAt updatedAt archivedAt trashed url content
    lead { id name displayName email }
    creator { id name displayName email }
    status { id name color }
";

pub const RELATION_FIELDS: &'static str = "
    id type createdAt updatedAt
    issue { id identifier title }
    relatedIssue { id identifier title }
";

pub const TEAM_FIELDS: &'static str = "id name key description color icon cyclesEnabled createdAt updatedAt archivedAt";

pub const USER_FIELDS: &'static str =
    "id name displayName email active admin guest isMe avatarUrl description createdAt updatedAt archivedAt lastSeen";

pub const WORKFLOW_STATE_FIELDS: &'static str =
    "id name type color position description createdAt updatedAt archivedAt team { id name key }";

/// The selection of a page: its nodes with `fields`, and its page information.
pub open spec fn page_selection(fields: Seq<char>) -> Seq<char> {
    "{ nodes { "@ + fields + " } pageInfo { hasNextPage hasPreviousPage endCursor startCursor } }"@
}

/// One page of the list `field`, filtered when the list takes a filter of
/// GraphQL type `filter`.
pub open spec fn list_document(field: Seq<char>, fields: Seq<char>, filter: Option<Seq<char>>) -> Seq<char> {
    let (decl, arg) = match filter {
        Some(t) => (", $filter: "@ + t, ", filter: $filter"@),
        None => (Seq::<char>::empty(), Seq::<char>::empty()),
    };
    "query($first: Int, $after: String, $includeArchived: Boolean, $orderBy: PaginationOrderBy"@ + decl + ") { "@
        + field + "(first: $first, after: $after, includeArchived: $includeArchived, orderBy: $orderBy"@ + arg
        + ") "@ + page_selection(fields) + " }"@
}

/// One record of `field` by ID.
pub open spec fn get_document(field: Seq<char>, fields: Seq<char>) -> Seq<char> {
    "query($id: String!) { "@ + field + "(id: $id) { "@ + fields + " } }"@
}

/// A creation `name` taking an `input_type`, answering with success and the
/// created `entity`.
pub open spec fn create_document(name: Seq<char>, input_type: Seq<char>, entity: Seq<char>, fields: Seq<char>) -> Seq<
    char,
> {
    "mutation($input: "@ + input_type + "!) { "@ + name + "(input: $input) { success "@ + entity + " { "@ + fields
        + " } } }"@
}

/// An update `name` of one record by ID.
pub open spec fn update_document(name: Seq<char>, input_type: Seq<char>, entity: Seq<char>, fields: Seq<char>) -> Seq<
    char,
> {
    "mutation($id: String!, $input: "@ + input_type + "!) { "@ + name + "(id: $id, input: $input) { success "@
        + entity + " { "@ + fields + " } } }"@
}

/// A mutation `name` of one record by ID answering with success alone
/// (archive, delete).
pub open spec fn id_document(name: Seq<char>) -> Seq<char> {
    "mutation($id: String!) { "@ + name + "(id: $id) { success } }"@
}

/// The search of issues by text, page by page.
pub open spec fn search_document() -> Seq<char> {
    "query($query: String, $first: Int, $after: String, $includeArchived: Boolean, $orderBy: PaginationOrderBy) { issueSearch(query: $query, first: $first, after: $after, includeArchived: $includeArchived, orderBy: $orderBy) "@
        + page_selection(ISSUE_FIELDS@) + " }"@
}

/// The relations of an issue in both directions.
pub open spec fn relations_document() -> Seq<char> {
    "query($id: String!) { issue(id: $id) { relations(first: 250) { nodes { "@ + RELATION_FIELDS@
        + " } } inverseRelations(first: 250) { nodes { "@ + RELATION_FIELDS@ + " } } } }"@
}

/// The authenticated user (a query without variables).
pub open spec fn viewer_document() -> Seq<char> {
    "{ viewer { "@ + USER_FIELDS@ + " } }"@
}

/// `doc` holds the text `t` somewhere.
pub open spec fn has_text(doc: Seq<char>, t: Seq<char>) -> bool {
    exists|i: int| 0 <= i && i + t.len() <= doc.len() && #[trigger] doc.subrange(i, i + t.len()) == t
}

/// Every list request pages by cursor: it declares `$after` and hands it to
/// the list as `after: $after`, beside `first`, `includeArchived` and
/// `orderBy`, so the next page starts after the cursor of the last one.
pub proof fn lemma_list_pages_by_cursor(field: Seq<char>, fields: Seq<char>, filter: Option<Seq<char>>)
    ensures
        has_text(list_document(field, fields, filter), "$after: String"@),
        has_text(
            list_document(field, fields, filter),
            "(first: $first, after: $after, includeArchived: $includeArchived, orderBy: $orderBy"@,
        ),
{
    reveal_strlit("query($first: Int, $after: String, $includeArchived: Boolean, $orderBy: PaginationOrderBy");
    reveal_strlit("$after: String");
    reveal_strlit("(first: $first, after: $after, includeArchived: $includeArchived, orderBy: $orderBy");
    reveal_strlit(") { ");
    let d = list_document(field, fields, filter);
    let decl: Seq<char> = match filter {
        Some(t) => ", $filter: "@ + t,
        None => Seq::<char>::empty(),
    };
    let head = "query($first: Int, $after: String, $includeArchived: Boolean, $orderBy: PaginationOrderBy"@;
    let args = "(first: $first, after: $after, includeArchived: $includeArchived, orderBy: $orderBy"@;
    let after = "$after: String"@;
    assert(d.subrange(19int, 19int + after.len()) =~= after);
    let at: int = head.len() + decl.len() + 4int + field.len();
    assert(d.subrange(at, at + args.len() as int) =~= args);
}

/// The search of issues pages by cursor the way every list does: it declares
/// `$after` and hands `issueSearch` the same paging arguments as a list.
pub proof fn lemma_search_pages_by_cursor()
    ensures
        has_text(search_document(), "$after: String"@),
        has_text(
            search_document(),
            "issueSearch(query: $query, first: $first, after: $after, includeArchived: $includeArchived, orderBy: $orderBy)"@,
        ),
{
    reveal_strlit(
        "query($query: String, $first: Int, $after: String, $includeArchived: Boolean, $orderBy: PaginationOrderBy) { issueSearch(query: $query, first: $first, after: $after, includeArchived: $includeArchived, orderBy: $orderBy) ",
    );
    reveal_strlit("$after: String");
    reveal_strlit(
        "issueSearch(query: $query, first: $first, after: $after, includeArchived: $includeArchived, orderBy: $orderBy)",
    );
    let d = search_document();
    let after = "$after: String"@;
    let call = "issueSearch(query: $query, first: $first, after: $after, includeArchived: $includeArchived, orderBy: $orderBy)"@;
    assert(d.subrange(35int, 35int + after.len()) =~= after);
    assert(d.subrange(109int, 109int + call.len()) =~= call);
}

/// The relations of an issue are asked for under their own names, with no
/// alias: the issue's own relations under `relations`, first, and the
/// relations that point at it under `inverseRelations`, after them.
pub proof fn lemma_relations_not_aliased()
    ensures
        has_text(relations_document(), "issue(id: $id) { relations(first: 250) { nodes"@),
        has_text(relations_document(), " } } inverseRelations(first: 250) { nodes"@),
{
    reveal_strlit("query($id: String!) { issue(id: $id) { relations(first: 250) { nodes { ");
    reveal_strlit(" } } inverseRelations(first: 250) { nodes { ");
    reveal_strlit("issue(id: $id) { relations(first: 250) { nodes");
    reveal_strlit(" } } inverseRelations(first: 250) { nodes");
    let d = relations_document();
    let own = "issue(id: $id) { relations(first: 250) { nodes"@;
    let inverse = " } } inverseRelations(first: 250) { nodes"@;
    assert(d.subrange(22int, 22int + own.len()) =~= own);
    let at: int = 71int + RELATION_FIELDS@.len();
    assert(d.subrange(at, at + inverse.len() as int) =~= inverse);
}

fn push_page_selection(s: &mut String, fields: &str)
    ensures
        final(s)@ == old(s)@ + page_selection(fields@),
{
    s.append("{ nodes { ");
    s.append(fields);
    s.append(" } pageInfo { hasNextPage hasPreviousPage endCursor startCursor } }");
}

pub fn list_query(field: &str, fields: &str, filter: Option<&str>) -> (r: String)
    ensures
        r@ == list_document(
            field@,
            fields@,
            match filter {
                Some(t) => Some(t@),
                None => None,
            },
        ),
{
    let mut s = "query($first: Int, $after: String, $includeArchived: Boolean, $orderBy: PaginationOrderBy".to_owned();
    if let Some(t) = filter {
        s.append(", $filter: ");
        s.append(t);
    }
    s.append(") { ");
    s.append(field);
    s.append("(first: $first, after: $after, includeArchived: $includeArchived, orderBy: $orderBy");
    if filter.is_some() {
        s.append(", filter: $filter");
    }
    s.append(") ");
    push_page_selection(&mut s, fields);
    s.append(" }");
    s
}

pub fn get_query(field: &str, fields: &str) -> (r: String)
    ensures
        r@ == get_document(field@, fields@),
{
    let mut s = "query($id: String!) { ".to_owned();
    s.append(field);
    s.append("(id: $id) { ");
    s.append(fields);
    s.append(" } }");
    s
}

pub fn create_mutation(name: &str, input_type: &str, entity: &str, fields: &str) -> (r: String)
    ensures
        r@ == create_document(name@, input_type@, entity@, fields@),
{
    let mut s = "mutation($input: ".to_owned();
    s.append(input_type);
    s.append("!) { ");
    s.append(name);
    s.append("(input: $input) { success ");
    s.append(entity);
    s.append(" { ");
    s.append(fields);
    s.append(" } } }");
    s
}

pub fn update_mutation(name: &str, input_type: &str, entity: &str, fields: &str) -> (r: String)
    ensures
        r@ == update_document(name@, input_type@, entity@, fields@),
{
    let mut s = "mutation($id: String!, $input: ".to_owned();
    s.append(input_type);
    s.append("!) { ");
    s.append(name);
    s.append("(id: $id, input: $input) { success ");
    s.append(entity);
    s.append(" { ");
    s.append(fields);
    s.append(" } } }");
    s
}

pub fn id_mutation(name: &str) -> (r: String)
    ensures
        r@ == id_document(name@),
{
    let mut s = "mutation($id: String!) { ".to_owned();
    s.append(name);
    s.append("(id: $id) { success } }");
    s
}

pub fn search_query() -> (r: String)
    ensures
        r@ == search_document(),
{
    let mut s = "query($query: String, $first: Int, $after: String, $includeArchived: Boolean, $orderBy: PaginationOrderBy) { issueSearch(query: $query, first: $first, after: $after, includeArchived: $includeArchived, orderBy: $orderBy) ".to_owned();
    push_page_selection(&mut s, ISSUE_FIELDS);
    s.append(" }");
    s
}

pub fn relations_query() -> (r: String)
    ensures
        r@ == relations_document(),
{
    let mut s = "query($id: String!) { issue(id: $id) { relations(first: 250) { nodes { ".to_owned();
    s.append(RELATION_FIELDS);
    s.append(" } } inverseRelations(first: 250) { nodes { ");
    s.append(RELATION_FIELDS);
    s.append(" } } } }");
    s
}

pub fn viewer_query() -> (r: String)
    ensures
        r@ == viewer_document(),
{
    let mut s = "{ viewer { ".to_owned();
    s.append(USER_FIELDS);
    s.append(" } }");
    s
}

} // verus!
