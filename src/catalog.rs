use vstd::prelude::*;

verus! {

/// The file under which a region's catalog of instance sizes is cached, after
/// the region's name.
pub open spec fn cache_suffix() -> Seq<char> {
    "-instances-table.txt"@
}

/// Where a region's catalog of instance sizes is published, before the
/// region's name.
pub open spec fn catalog_url_prefix() -> Seq<char> {
    "https://raw.githubusercontent.com/samuela/jj/main/scraping/data/"@
}

/// The name of the cache file that holds the catalog of region `region_name`.
pub fn cache_file_name(region_name: &str) -> (r: String)
    ensures
        r@ == region_name@ + cache_suffix(),
{
    let mut s = region_name.to_string();
    s.append("-instances-table.txt");
    s
}

/// The address from which the catalog of region `region_name` is downloaded.
pub fn catalog_url(region_name: &str) -> (r: String)
    ensures
        r@ == catalog_url_prefix() + region_name@ + cache_suffix(),
{
    let mut s = "https://raw.githubusercontent.com/samuela/jj/main/scraping/data/".to_string();
    s.append(region_name);
    s.append("-instances-table.txt");
    s
}

/// The position of the first space in `line` at or after `from`.
pub open spec fn space_index_from(line: Seq<char>, from: int) -> Option<int>
    decreases line.len() - from,
{
    if from < 0 || from >= line.len() {
        None
    } else if line[from] == ' ' {
        Some(from)
    } else {
        space_index_from(line, from + 1)
    }
}

/// The size name that a catalog line starts with: what stands before its
/// first space. A line without a space names nothing.
pub open spec fn size_name(line: Seq<char>) -> Option<Seq<char>> {
    match space_index_from(line, 0) {
        None => None,
        Some(k) => Some(line.subrange(0, k)),
    }
}

/// What the user's pick from the catalog amounts to.
#[derive(Debug)]
pub enum Selection {
    /// The picker was aborted.
    Aborted,
    /// The picker returned no line, or more than one.
    NoSelection,
    /// The picked line has no space, so it names no size.
    MalformedLine,
    /// The size picked.
    Chosen(String),
}

/// Whether `r` is what a pick amounts to, from whether the picker was
/// aborted and the lines it returned.
pub open spec fn selection_of(aborted: bool, picked: Seq<String>, r: Selection) -> bool {
    if aborted {
        r is Aborted
    } else if picked.len() != 1 {
        r is NoSelection
    } else {
        match size_name(picked[0]@) {
            None => r is MalformedLine,
            Some(t) => r is Chosen && r->Chosen_0@ == t,
        }
    }
}

/// The size name that `line` starts with, if it has a space.
pub fn size_name_of(line: &str) -> (r: Option<String>)
    ensures
        match size_name(line@) {
            None => r is None,
            Some(t) => r is Some && r->0@ == t,
        },
{
    let n = line.unicode_len();
    let mut i: usize = 0;
    while i < n
        invariant
            n == line@.len(),
            i <= n,
            space_index_from(line@, 0) == space_index_from(line@, i as int),
        decreases n - i,
    {
        if line.get_char(i) == ' ' {
            let t = line.substring_char(0, i);
            return Some(t.to_string());
        }
        i = i + 1;
    }
    None
}

/// Reads the user's pick: the picker's abort flag and the lines it returned.
pub fn selection(aborted: bool, picked: &Vec<String>) -> (r: Selection)
    ensures
        selection_of(aborted, picked@, r),
{
    if aborted {
        Selection::Aborted
    } else if picked.len() != 1 {
        Selection::NoSelection
    } else {
        match size_name_of(picked[0].as_str()) {
            None => Selection::MalformedLine,
            Some(t) => Selection::Chosen(t),
        }
    }
}

} // verus!
