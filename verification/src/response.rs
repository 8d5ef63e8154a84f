//! The envelope in which every successful answer is sent.
use vstd::prelude::*;

verus! {

/// A successful answer: `success` is set, `data` holds the payload and `meta`
/// describes the page where the payload is one page of a longer list.
pub struct ApiResponse<T> {
    pub success: bool,
    pub data: T,
    pub meta: Option<PaginationMeta>,
}

/// One page of a list, with the size of the whole list.
pub struct PaginatedData<T> {
    pub data: Vec<T>,
    pub total_items: u64,
    pub current_page: u64,
    pub total_pages: u64,
}

/// Where a page lies in its list.
#[derive(Clone, Copy, PartialEq, Eq, Structural, Debug)]
pub struct PaginationMeta {
    pub total_items: u64,
    pub current_page: u64,
    pub total_pages: u64,
}

impl<T> ApiResponse<T> {
    /// A successful answer that carries `data` and no page description.
    pub fn success(data: T) -> (r: Self)
        ensures
            r.success,
            r.data == data,
            r.meta is None,
    {
        ApiResponse { success: true, data, meta: None }
    }
}

impl<T> ApiResponse<Vec<T>> {
    /// A successful answer that carries one page and describes where it lies.
    pub fn paginated(paginated_data: PaginatedData<T>) -> (r: Self)
        ensures
            r.success,
            r.data@ == paginated_data.data@,
            r.meta == Some(
                PaginationMeta {
                    total_items: paginated_data.total_items,
                    current_page: paginated_data.current_page,
                    total_pages: paginated_data.total_pages,
                },
            ),
    {
        ApiResponse {
            success: true,
            data: paginated_data.data,
            meta: Some(
                PaginationMeta {
                    total_items: paginated_data.total_items,
                    current_page: paginated_data.current_page,
                    total_pages: paginated_data.total_pages,
                },
            ),
        }
    }
}

} // verus!
