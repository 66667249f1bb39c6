//! `attachments`: list, show, create, update and delete attachments.

use vstd::prelude::*;
use crate::args::PaginationArgs;
use crate::common::MutationResponse;

verus! {

#[derive(Debug, Clone, PartialEq, Eq)]
pub struct AttachmentsCommand {
    pub action: AttachmentsAction,
}

#[derive(Debug, Clone, PartialEq, Eq)]
pub enum AttachmentsAction {
    List { pagination: PaginationArgs },
    Get { id: String },
    /// Create an attachment on an issue (ID or identifier).
    Create {
        issue: String,
        title: String,
        url: String,
        subtitle: Option<String>,
        icon_url: Option<String>,
    },
    Update { id: String, title: String, subtitle: Option<String>, icon_url: Option<String> },
    Delete { id: String },
}

#[derive(Debug, Clone, PartialEq, Eq)]
pub struct AttachmentCreateInput {
    pub issue_id: String,
    pub title: String,
    pub url: String,
    pub subtitle: Option<String>,
    pub icon_url: Option<String>,
}

#[derive(Debug, Clone, PartialEq, Eq)]
pub struct AttachmentUpdateInput {
    pub title: String,
    pub subtitle: Option<String>,
    pub icon_url: Option<String>,
}

#[derive(Debug, Clone, PartialEq, Eq)]
pub struct AttachmentByIdVariables {
    pub id: String,
}

#[derive(Debug, Clone, PartialEq, Eq)]
pub struct AttachmentCreateVariables {
    pub input: AttachmentCreateInput,
}

#[derive(Debug, Clone, PartialEq, Eq)]
pub struct AttachmentUpdateVariables {
    pub id: String,
    pub input: AttachmentUpdateInput,
}

#[derive(Debug, Clone, PartialEq, Eq)]
pub struct AttachmentDeleteVariables {
    pub id: String,
}

/// What an `attachments` command asks the API for.
#[derive(Debug, Clone, PartialEq, Eq)]
pub enum AttachmentsRequest {
    List(PaginationArgs),
    Get(AttachmentByIdVariables),
    Create(AttachmentCreateVariables),
    Update(AttachmentUpdateVariables),
    Delete(AttachmentDeleteVariables),
}

impl AttachmentsCommand {
    /// The request of the command; the issue is passed on as given.
    pub fn request(self) -> (r: AttachmentsRequest)
        ensures
            self.action matches AttachmentsAction::List { pagination } ==> r == AttachmentsRequest::List(
                pagination,
            ),
            self.action matches AttachmentsAction::Get { id } ==> r == AttachmentsRequest::Get(
                AttachmentByIdVariables { id },
            ),
            self.action matches AttachmentsAction::Create { issue, title, url, subtitle, icon_url } ==> r
                == AttachmentsRequest::Create(
                AttachmentCreateVariables {
                    input: AttachmentCreateInput { issue_id: issue, title, url, subtitle, icon_url },
                },
            ),
            self.action matches AttachmentsAction::Update { id, title, subtitle, icon_url } ==> r
                == AttachmentsRequest::Update(
                AttachmentUpdateVariables { id, input: AttachmentUpdateInput { title, subtitle, icon_url } },
            ),
            self.action matches AttachmentsAction::Delete { id } ==> r == AttachmentsRequest::Delete(
                AttachmentDeleteVariables { id },
            ),
    {
        match self.action {
            AttachmentsAction::List { pagination } => AttachmentsRequest::List(pagination),
            AttachmentsAction::Get { id } => AttachmentsRequest::Get(AttachmentByIdVariables { id }),
            AttachmentsAction::Create { issue, title, url, subtitle, icon_url } => AttachmentsRequest::Create(
                AttachmentCreateVariables {
                    input: AttachmentCreateInput { issue_id: issue, title, url, subtitle, icon_url },
                },
            ),
            AttachmentsAction::Update { id, title, subtitle, icon_url } => AttachmentsRequest::Update(
                AttachmentUpdateVariables { id, input: AttachmentUpdateInput { title, subtitle, icon_url } },
            ),
            AttachmentsAction::Delete { id } => AttachmentsRequest::Delete(AttachmentDeleteVariables { id }),
        }
    }
}

/// The answer to deleting an attachment.
#[derive(Debug, Clone, PartialEq, Eq)]
pub struct AttachmentDeletePayload {
    pub success: bool,
}

impl AttachmentDeletePayload {
    /// The printed result: the flag, no data.
    pub fn into_response(self) -> (r: MutationResponse<()>)
        ensures
            r.success == self.success,
            r.data.is_none(),
    {
        MutationResponse { success: self.success, data: None }
    }
}

/// The answer to creating or updating an attachment: the success flag and the record.
#[derive(Debug, Clone, PartialEq, Eq)]
pub struct AttachmentPayload<T> {
    pub success: bool,
    pub attachment: T,
}

impl<T> AttachmentPayload<T> {
    /// The printed result: the success flag and the record.
    pub fn into_response(self) -> (r: MutationResponse<T>)
        ensures
            r.success == self.success,
            r.data == Some(self.attachment),
    {
        MutationResponse { success: self.success, data: Some(self.attachment) }
    }
}

} // verus!
