use linear_mg::common::PaginationOrderBy;
use linear_mg::graphql::{
    create_mutation, get_query, id_mutation, list_query, relations_query, search_query, update_mutation,
    viewer_query, ISSUE_FIELDS, RELATION_FIELDS, TEAM_FIELDS, USER_FIELDS,
};
use linear_mg::resolve::lookup_page;

#[test]
fn list_documents() {
    assert_eq!(
        list_query("teams", TEAM_FIELDS, None),
        format!(
            "query($first: Int, $after: String, $includeArchived: Boolean, $orderBy: PaginationOrderBy) {{ teams(first: $first, after: $after, includeArchived: $includeArchived, orderBy: $orderBy) {{ nodes {{ {TEAM_FIELDS} }} pageInfo {{ hasNextPage hasPreviousPage endCursor startCursor }} }} }}"
        )
    );
    assert_eq!(
        list_query("issues", "id", Some("IssueFilter")),
        "query($first: Int, $after: String, $includeArchived: Boolean, $orderBy: PaginationOrderBy, $filter: IssueFilter) { issues(first: $first, after: $after, includeArchived: $includeArchived, orderBy: $orderBy, filter: $filter) { nodes { id } pageInfo { hasNextPage hasPreviousPage endCursor startCursor } } }"
    );
}

#[test]
fn get_and_mutation_documents() {
    assert_eq!(get_query("issue", "id title"), "query($id: String!) { issue(id: $id) { id title } }");
    assert_eq!(
        create_mutation("issueCreate", "IssueCreateInput", "issue", "id"),
        "mutation($input: IssueCreateInput!) { issueCreate(input: $input) { success issue { id } } }"
    );
    assert_eq!(
        update_mutation("commentUpdate", "CommentUpdateInput", "comment", "id body"),
        "mutation($id: String!, $input: CommentUpdateInput!) { commentUpdate(id: $id, input: $input) { success comment { id body } } }"
    );
    assert_eq!(id_mutation("issueArchive"), "mutation($id: String!) { issueArchive(id: $id) { success } }");
}

#[test]
fn fixed_documents() {
    assert!(search_query().starts_with("query($query: String, $first: Int"));
    assert!(search_query().contains(ISSUE_FIELDS));
    assert_eq!(relations_query().matches(RELATION_FIELDS).count(), 2);
    assert_eq!(viewer_query(), format!("{{ viewer {{ {USER_FIELDS} }} }}"));
}

#[test]
fn lookups_search_recent_records() {
    let v = lookup_page();
    assert_eq!(v.first, Some(250));
    assert_eq!(v.after, None);
    assert_eq!(v.include_archived, Some(false));
    assert_eq!(v.order_by, Some(PaginationOrderBy::UpdatedAt));
    assert_eq!(PaginationOrderBy::UpdatedAt.as_str(), "updatedAt");
    assert_eq!(PaginationOrderBy::CreatedAt.as_str(), "createdAt");
}
