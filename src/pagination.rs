use vstd::prelude::*;

verus! {

/// The convention a remote API uses to select one page of results.
#[derive(Clone, Copy, Debug, PartialEq, Eq, Structural)]
pub enum PaginationType {
    /// `offset` / `limit`.
    Offset,
    /// `cursor` / `limit`, where the cursor is the page index itself.
    Cursor,
    /// `page` / `pageSize`.
    Page,
}

/// The name of a query parameter that selects a page.
#[derive(Clone, Copy, Debug, PartialEq, Eq, Structural)]
pub enum ParamKey {
    Offset,
    Limit,
    Cursor,
    Page,
    PageSize,
}

/// One query parameter of a page request.
#[derive(Clone, Copy, Debug, PartialEq, Eq, Structural)]
pub struct QueryParam {
    pub key: ParamKey,
    pub value: u64,
}

/// The name under which a parameter is sent.
pub open spec fn key_text(k: ParamKey) -> Seq<char> {
    match k {
        ParamKey::Offset => "offset"@,
        ParamKey::Limit => "limit"@,
        ParamKey::Cursor => "cursor"@,
        ParamKey::Page => "page"@,
        ParamKey::PageSize => "pageSize"@,
    }
}

impl ParamKey {
    /// The name under which this parameter is sent.
    pub fn name(&self) -> (r: &'static str)
        ensures
            r@ == key_text(*self),
    {
        match self {
            ParamKey::Offset => "offset",
            ParamKey::Limit => "limit",
            ParamKey::Cursor => "cursor",
            ParamKey::Page => "page",
            ParamKey::PageSize => "pageSize",
        }
    }
}

/// The parameters that select page `page_index` (1-based) of `page_size` items.
pub open spec fn request_params(t: PaginationType, page_index: int, page_size: int) -> Seq<
    (ParamKey, int),
> {
    match t {
        PaginationType::Offset => seq![
            (ParamKey::Offset, (page_index - 1) * page_size),
            (ParamKey::Limit, page_size),
        ],
        PaginationType::Cursor => seq![(ParamKey::Cursor, page_index), (ParamKey::Limit, page_size)],
        PaginationType::Page => seq![(ParamKey::Page, page_index), (ParamKey::PageSize, page_size)],
    }
}

/// A parameter list as key and integer value.
pub open spec fn params_view(ps: Seq<QueryParam>) -> Seq<(ParamKey, int)> {
    ps.map_values(|p: QueryParam| (p.key, p.value as int))
}

/// Whether the offset of page `page_index` fits in a `u64`.
pub open spec fn request_fits(page_index: int, page_size: int) -> bool {
    (page_index - 1) * page_size <= u64::MAX
}

/// The number of pages of `page_size` items that hold `total_count` items.
pub open spec fn pages_for(total_count: int, page_size: int) -> int {
    if total_count <= 0 {
        0
    } else {
        (total_count - 1) / page_size + 1
    }
}

/// The variant that a lower-cased name selects; any unknown name selects `Page`.
pub open spec fn variant_named(s: Seq<char>) -> PaginationType {
    if s == "offset"@ {
        PaginationType::Offset
    } else if s == "cursor"@ {
        PaginationType::Cursor
    } else {
        PaginationType::Page
    }
}

/// The lower-case form of a string, as `str::to_lowercase` gives it.
pub uninterp spec fn lowercase_of(s: Seq<char>) -> Seq<char>;

/// Relies on `str::to_lowercase`: its result depends on the characters alone.
#[verifier::external_body]
fn to_lowercase(s: &str) -> (r: String)
    ensures
        r@ == lowercase_of(s@),
{
    s.to_lowercase()
}

impl PaginationType {
    /// The variant named by a name that is already in lower case.
    pub fn from_lowercase_name(s: &str) -> (r: PaginationType)
        ensures
            r == variant_named(s@),
    {
        let t = s.to_string();
        if t == "offset".to_string() {
            PaginationType::Offset
        } else if t == "cursor".to_string() {
            PaginationType::Cursor
        } else {
            PaginationType::Page
        }
    }

    /// The variant named by `s`, compared without regard to case.
    pub fn from_name(s: &str) -> (r: PaginationType)
        ensures
            r == variant_named(lowercase_of(s@)),
    {
        let lower = to_lowercase(s);
        PaginationType::from_lowercase_name(lower.as_str())
    }
}

/// Why a pagination configuration was refused.
#[derive(Clone, Copy, Debug, PartialEq, Eq, Structural)]
pub enum ConfigError {
    /// A page must hold at least one item.
    ZeroPageSize,
    /// The field name of the data is empty.
    EmptyDataPath,
    /// The field name of the total count is empty.
    EmptyTotalCountPath,
}

/// How pages are requested and where a response keeps its data and count.
#[derive(Debug)]
pub struct PaginationConfig {
    pub pagination_type: PaginationType,
    pub page_size: u64,
    /// Top-level field that holds a page's data.
    pub data_path: String,
    /// Top-level field that holds the total item count.
    pub total_count_path: String,
}

impl PaginationConfig {
    /// A page holds at least one item and both field names are non-empty.
    pub open spec fn wf(&self) -> bool {
        &&& self.page_size > 0
        &&& self.data_path@.len() > 0
        &&& self.total_count_path@.len() > 0
    }

    /// Checks and assembles a configuration.
    pub fn new(
        pagination_type: PaginationType,
        page_size: u64,
        data_path: String,
        total_count_path: String,
    ) -> (r: Result<PaginationConfig, ConfigError>)
        ensures
            page_size == 0 ==> r == Err::<PaginationConfig, ConfigError>(ConfigError::ZeroPageSize),
            page_size > 0 && data_path@.len() == 0 ==> r == Err::<PaginationConfig, ConfigError>(
                ConfigError::EmptyDataPath,
            ),
            page_size > 0 && data_path@.len() > 0 && total_count_path@.len() == 0 ==> r == Err::<
                PaginationConfig,
                ConfigError,
            >(ConfigError::EmptyTotalCountPath),
            r is Ok <==> (page_size > 0 && data_path@.len() > 0 && total_count_path@.len() > 0),
            r matches Ok(c) ==> c.wf() && c.pagination_type == pagination_type && c.page_size
                == page_size && c.data_path@ == data_path@ && c.total_count_path@
                == total_count_path@,
    {
        if page_size == 0 {
            Err(ConfigError::ZeroPageSize)
        } else if data_path.as_str().is_empty() {
            Err(ConfigError::EmptyDataPath)
        } else if total_count_path.as_str().is_empty() {
            Err(ConfigError::EmptyTotalCountPath)
        } else {
            Ok(PaginationConfig { pagination_type, page_size, data_path, total_count_path })
        }
    }

    /// The query parameters that select page `page_index` under this configuration.
    pub fn build_request(&self, page_index: u64) -> (r: Vec<QueryParam>)
        requires
            page_index >= 1,
            request_fits(page_index as int, self.page_size as int),
        ensures
            params_view(r@) == request_params(
                self.pagination_type,
                page_index as int,
                self.page_size as int,
            ),
    {
        build_request(self.pagination_type, page_index, self.page_size)
    }
}

/// The query parameters that select page `page_index` of `page_size` items.
pub fn build_request(t: PaginationType, page_index: u64, page_size: u64) -> (r: Vec<QueryParam>)
    requires
        page_index >= 1,
        request_fits(page_index as int, page_size as int),
    ensures
        params_view(r@) == request_params(t, page_index as int, page_size as int),
{
    let r = match t {
        PaginationType::Offset => {
            let offset = (page_index - 1) * page_size;
            vec![
                QueryParam { key: ParamKey::Offset, value: offset },
                QueryParam { key: ParamKey::Limit, value: page_size },
            ]
        },
        PaginationType::Cursor => vec![
            QueryParam { key: ParamKey::Cursor, value: page_index },
            QueryParam { key: ParamKey::Limit, value: page_size },
        ],
        PaginationType::Page => vec![
            QueryParam { key: ParamKey::Page, value: page_index },
            QueryParam { key: ParamKey::PageSize, value: page_size },
        ],
    };
    assert(params_view(r@) =~= request_params(t, page_index as int, page_size as int));
    r
}

/// The number of pages that hold `total_count` items; none when the count is
/// zero or negative.
pub fn total_pages(total_count: i64, page_size: u64) -> (r: u64)
    requires
        page_size > 0,
    ensures
        r == pages_for(total_count as int, page_size as int),
{
    if total_count <= 0 {
        0
    } else {
        let c = total_count as u64;
        (c - 1) / page_size + 1
    }
}

} // verus!
