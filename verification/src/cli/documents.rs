//! `documents`: list, show, create and update documents.

use vstd::prelude::*;
use crate::args::PaginationArgs;
use crate::common::MutationResponse;

verus! {

#[derive(Debug, Clone, PartialEq, Eq)]
pub struct DocumentsCommand {
    pub action: DocumentsAction,
}

#[derive(Debug, Clone, PartialEq, Eq)]
pub enum DocumentsAction {
    List { pagination: PaginationArgs },
    Get { id: String },
    Create {
        title: String,
        content: Option<String>,
        project: Option<String>,
        icon: Option<String>,
        color: Option<String>,
    },
    Update {
        id: String,
        title: Option<String>,
        content: Option<String>,
        project: Option<String>,
        icon: Option<String>,
        color: Option<String>,
    },
}

#[derive(Debug, Clone, PartialEq, Eq)]
pub struct DocumentCreateInput {
    pub title: String,
    pub content: Option<String>,
    pub project_id: Option<String>,
    pub icon: Option<String>,
    pub color: Option<String>,
}

#[derive(Debug, Clone, PartialEq, Eq)]
pub struct DocumentUpdateInput {
    pub title: Option<String>,
    pub content: Option<String>,
    pub project_id: Option<String>,
    pub icon: Option<String>,
    pub color: Option<String>,
}

#[derive(Debug, Clone, PartialEq, Eq)]
pub struct DocumentByIdVariables {
    pub id: String,
}

#[derive(Debug, Clone, PartialEq, Eq)]
pub struct DocumentCreateVariables {
    pub input: DocumentCreateInput,
}

#[derive(Debug, Clone, PartialEq, Eq)]
pub struct DocumentUpdateVariables {
    pub id: String,
    pub input: DocumentUpdateInput,
}

/// What a `documents` command asks the API for.
#[derive(Debug, Clone, PartialEq, Eq)]
pub enum DocumentsRequest {
    List(PaginationArgs),
    Get(DocumentByIdVariables),
    Create(DocumentCreateVariables),
    Update(DocumentUpdateVariables),
}

impl DocumentsCommand {
    /// The request of the command; `--project` is passed on as the project ID.
    pub fn request(self) -> (r: DocumentsRequest)
        ensures
            self.action matches DocumentsAction::List { pagination } ==> r == DocumentsRequest::List(pagination),
            self.action matches DocumentsAction::Get { id } ==> r == DocumentsRequest::Get(
                DocumentByIdVariables { id },
            ),
            self.action matches DocumentsAction::Create { title, content, project, icon, color } ==> r
                == DocumentsRequest::Create(
                DocumentCreateVariables {
                    input: DocumentCreateInput { title, content, project_id: project, icon, color },
                },
            ),
            self.action matches DocumentsAction::Update { id, title, content, project, icon, color } ==> r
                == DocumentsRequest::Update(
                DocumentUpdateVariables {
                    id,
                    input: DocumentUpdateInput { title, content, project_id: project, icon, color },
                },
            ),
    {
        match self.action {
            DocumentsAction::List { pagination } => DocumentsRequest::List(pagination),
            DocumentsAction::Get { id } => DocumentsRequest::Get(DocumentByIdVariables { id }),
            DocumentsAction::Create { title, content, project, icon, color } => DocumentsRequest::Create(
                DocumentCreateVariables {
                    input: DocumentCreateInput { title, content, project_id: project, icon, color },
                },
            ),
            DocumentsAction::Update { id, title, content, project, icon, color } => DocumentsRequest::Update(
                DocumentUpdateVariables {
                    id,
                    input: DocumentUpdateInput { title, content, project_id: project, icon, color },
                },
            ),
        }
    }
}

/// The answer to creating or updating a document: the success flag and the record.
#[derive(Debug, Clone, PartialEq, Eq)]
pub struct DocumentPayload<T> {
    pub success: bool,
    pub document: T,
}

impl<T> DocumentPayload<T> {
    /// The printed result: the success flag and the record.
    pub fn into_response(self) -> (r: MutationResponse<T>)
        ensures
            r.success == self.success,
            r.data == Some(self.document),
    {
        MutationResponse { success: self.success, data: Some(self.document) }
    }
}

} // verus!
