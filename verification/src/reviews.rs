//! Product reviews: their payloads, the labels the backend uses for their
//! states, the names of their local files, and image embedding.

use vstd::prelude::*;
use vstd::string::*;
use crate::text::{
    decimal, i64_to_string, pairs_of, push_text, same_text, text_filter, KeyValue,
};

verus! {

/// A review as the backend stores it.
#[derive(Debug, Clone)]
pub struct Review {
    pub id: i32,
    pub product_id: i32,
    pub reviewer_id: i32,
    pub review_status: String,
    pub product_status: String,
    pub review_path: String,
    pub created_at: String,
    pub updated_at: String,
}

/// Where a review stands.
#[derive(Debug, Clone, Copy, PartialEq, Eq, Structural)]
pub enum ReviewStatus {
    Draft,
    Pending,
    Approved,
}

/// What a review says of its product.
#[derive(Debug, Clone, Copy, PartialEq, Eq, Structural)]
pub enum ProductStatus {
    InReview,
    Rejected,
    Accepted,
}

/// A review about to be created.
#[derive(Debug)]
pub struct NewReview {
    pub content: String,
    pub product_id: i32,
    pub product_status: ProductStatus,
    pub review_status: ReviewStatus,
    pub reviewer_id: Option<i32>,
}

/// The fields of a review to change; `None` leaves a field as it is.
#[derive(Debug)]
pub struct UpdateReview {
    pub content: Option<String>,
    pub product_status: Option<String>,
    pub review_status: Option<String>,
}

/// A review together with its text.
#[derive(Debug)]
pub struct ReviewResponse {
    pub review: Review,
    pub content: String,
}

impl ReviewStatus {
    /// The backend's label of the status.
    pub open spec fn label(self) -> Seq<char> {
        match self {
            ReviewStatus::Draft => "Draft"@,
            ReviewStatus::Pending => "Pending"@,
            ReviewStatus::Approved => "Approved"@,
        }
    }

    /// The label under which the backend knows the status.
    pub fn as_api_str(&self) -> (text: &'static str)
        ensures
            text@ == self.label(),
    {
        match self {
            ReviewStatus::Draft => "Draft",
            ReviewStatus::Pending => "Pending",
            ReviewStatus::Approved => "Approved",
        }
    }
}

impl ProductStatus {
    /// The backend's label of the status.
    pub open spec fn label(self) -> Seq<char> {
        match self {
            ProductStatus::InReview => "In Review"@,
            ProductStatus::Rejected => "Rejected"@,
            ProductStatus::Accepted => "Accepted"@,
        }
    }

    /// The status that a label given by the user interface stands for.
    /// `InReview` and `In Review` both name the first; an unknown label
    /// counts as in review.
    pub open spec fn of_label(text: Seq<char>) -> ProductStatus {
        if text == "InReview"@ || text == "In Review"@ {
            ProductStatus::InReview
        } else if text == "Rejected"@ {
            ProductStatus::Rejected
        } else if text == "Accepted"@ {
            ProductStatus::Accepted
        } else {
            ProductStatus::InReview
        }
    }

    /// True for the labels that name a status.
    pub open spec fn is_known_label(text: Seq<char>) -> bool {
        text == "InReview"@ || text == "In Review"@ || text == "Rejected"@ || text == "Accepted"@
    }

    /// The label under which the backend knows the status.
    pub fn as_api_str(&self) -> (text: &'static str)
        ensures
            text@ == self.label(),
    {
        match self {
            ProductStatus::InReview => "In Review",
            ProductStatus::Rejected => "Rejected",
            ProductStatus::Accepted => "Accepted",
        }
    }

    /// Reads a status from a label, and tells whether the label was known.
    pub fn from_label(text: &str) -> (parsed: (ProductStatus, bool))
        ensures
            parsed.0 == ProductStatus::of_label(text@),
            parsed.1 == ProductStatus::is_known_label(text@),
    {
        if same_text(text, "InReview") || same_text(text, "In Review") {
            (ProductStatus::InReview, true)
        } else if same_text(text, "Rejected") {
            (ProductStatus::Rejected, true)
        } else if same_text(text, "Accepted") {
            (ProductStatus::Accepted, true)
        } else {
            (ProductStatus::InReview, false)
        }
    }
}

impl NewReview {
    /// The review that submits a local draft: pending, assigned to no one
    /// yet, with the product status that the label names.
    pub fn from_draft(content: String, product_id: i32, product_status: &str) -> (review: NewReview)
        ensures
            review.content == content,
            review.product_id == product_id,
            review.product_status == ProductStatus::of_label(product_status@),
            review.review_status == ReviewStatus::Pending,
            review.reviewer_id is None,
    {
        let (status, _) = ProductStatus::from_label(product_status);
        NewReview {
            content,
            product_id,
            product_status: status,
            review_status: ReviewStatus::Pending,
            reviewer_id: None,
        }
    }
}

impl UpdateReview {
    /// The update by which a team lead approves a review.
    pub fn approval() -> (update: UpdateReview)
        ensures
            update.review_status matches Some(s) && s@ == "Approved"@,
            update.product_status is None,
            update.content is None,
    {
        UpdateReview {
            review_status: Some(String::from_str("Approved")),
            product_status: None,
            content: None,
        }
    }

    /// The update by which a team lead rejects a review.
    pub fn rejection() -> (update: UpdateReview)
        ensures
            update.review_status matches Some(s) && s@ == "Rejected"@,
            update.product_status is None,
            update.content is None,
    {
        UpdateReview {
            review_status: Some(String::from_str("Rejected")),
            product_status: None,
            content: None,
        }
    }

    /// The members of the payload that carries this update to the backend:
    /// one for each field that is set, none for a field that is not.
    pub open spec fn payload_members(&self) -> Seq<(Seq<char>, Seq<char>)> {
        text_filter("review_status"@, self.review_status) + text_filter(
            "product_status"@,
            self.product_status,
        ) + text_filter("content"@, self.content)
    }

    /// Builds the members of the payload for this update.
    pub fn payload(self) -> (members: Vec<KeyValue>)
        ensures
            pairs_of(members@) == self.payload_members(),
    {
        let mut members: Vec<KeyValue> = Vec::new();
        assert(pairs_of(members@) =~= Seq::<(Seq<char>, Seq<char>)>::empty());
        push_text(&mut members, "review_status", self.review_status);
        push_text(&mut members, "product_status", self.product_status);
        push_text(&mut members, "content", self.content);
        assert(pairs_of(members@) =~= self.payload_members());
        members
    }

    /// The update that resubmits a local draft: the given product status,
    /// the review pending again, the draft as its content.
    pub fn from_draft(product_status: String, content: String) -> (update: UpdateReview)
        ensures
            update.product_status == Some(product_status),
            update.review_status matches Some(s) && s@ == "Pending"@,
            update.content == Some(content),
    {
        UpdateReview {
            product_status: Some(product_status),
            review_status: Some(String::from_str("Pending")),
            content: Some(content),
        }
    }
}

/// Name of the directory, under the user's home, that holds local reviews.
pub open spec fn reviews_root() -> Seq<char> {
    ".elevation-manager"@
}

/// The name of the directory, under the user's home, that holds local reviews.
pub fn reviews_root_name() -> (name: &'static str)
    ensures
        name@ == reviews_root(),
{
    ".elevation-manager"
}

/// The file name of a review's local copy: `draft.html` for the draft,
/// `review_<id>.html` for a review that has an identifier.
pub open spec fn review_file_name_of(review_id: Option<i32>) -> Seq<char> {
    match review_id {
        Some(id) => "review_"@ + decimal(id as int) + ".html"@,
        None => "draft.html"@,
    }
}

/// The name of the directory that holds a review's images: `draft` for the
/// draft, the identifier for a review that has one.
pub open spec fn image_dir_name_of(review_id: Option<i32>) -> Seq<char> {
    match review_id {
        Some(id) => decimal(id as int),
        None => "draft"@,
    }
}

/// The file name of a review's local copy.
pub fn review_file_name(review_id: Option<i32>) -> (name: String)
    ensures
        name@ == review_file_name_of(review_id),
{
    match review_id {
        Some(id) => String::from_str("review_").concat(i64_to_string(id as i64).as_str()).concat(
            ".html",
        ),
        None => String::from_str("draft.html"),
    }
}

/// The name of the directory that holds a review's images.
pub fn image_dir_name(review_id: Option<i32>) -> (name: String)
    ensures
        name@ == image_dir_name_of(review_id),
{
    match review_id {
        Some(id) => i64_to_string(id as i64),
        None => String::from_str("draft"),
    }
}

/// The base64 text of a byte string: standard alphabet, padded with `=`.
pub uninterp spec fn base64_standard(bytes: Seq<u8>) -> Seq<char>;

/// True when the encoded length of that many bytes fits the machine's word.
pub open spec fn encodable_len(len: nat) -> bool {
    len / 3 * 4 + 4 <= usize::MAX
}

/// Calls `Engine::encode` of the `base64` crate on its `STANDARD` engine. The
/// text is a function of the bytes alone, recorded under the name
/// `base64_standard`. The crate gives up when the encoded length overflows,
/// which the precondition excludes.
#[verifier::external_body]
fn base64_encode(bytes: &[u8]) -> (text: String)
    requires
        encodable_len(bytes@.len()),
    ensures
        text@ == base64_standard(bytes@),
{
    base64::Engine::encode(&base64::engine::general_purpose::STANDARD, bytes)
}

/// What embedding an image yields, given the bytes read from its file or the
/// reason why reading failed.
pub open spec fn embedded_image(read: Result<Seq<u8>, Seq<char>>) -> Result<Seq<char>, Seq<char>> {
    match read {
        Ok(bytes) => Ok(base64_standard(bytes)),
        Err(reason) => Err("Failed to read image file: "@ + reason),
    }
}

/// View of what reading a file yielded.
pub open spec fn read_view(read: Result<Vec<u8>, String>) -> Result<Seq<u8>, Seq<char>> {
    match read {
        Ok(bytes) => Ok(bytes@),
        Err(reason) => Err(reason@),
    }
}

/// Turns an image into base64 text for embedding in a review: the encoded
/// bytes, or a message that carries the reason why the file could not be read.
pub fn convert_image_to_base64(read: Result<Vec<u8>, String>) -> (result: Result<String, String>)
    requires
        read matches Ok(bytes) ==> encodable_len(bytes@.len()),
    ensures
        match result {
            Ok(text) => embedded_image(read_view(read)) == Ok::<Seq<char>, Seq<char>>(text@),
            Err(message) => embedded_image(read_view(read)) == Err::<Seq<char>, Seq<char>>(
                message@,
            ),
        },
{
    match read {
        Ok(bytes) => Ok(base64_encode(bytes.as_slice())),
        Err(reason) => Err(String::from_str("Failed to read image file: ").concat(reason.as_str())),
    }
}

} // verus!
