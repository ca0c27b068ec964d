//! The provisioning page that the node serves in access-point mode.

use vstd::prelude::*;
use vstd::string::StringExecFns;

verus! {

/// What stands before the content in a page.
pub const PAGE_HEAD: &'static str =
    "\n<!DOCTYPE html>\n<html>\n    <head>\n        <meta charset=\"utf-8\">\n        <title>esp-rs web server</title>\n    </head>\n    <body>\n        ";

/// What stands behind the content in a page.
pub const PAGE_TAIL: &'static str = "\n    </body>\n</html>\n";

/// The content of the index page.
pub const INDEX_CONTENT: &'static str = "Hello from ESP32-C3!";

/// The page with `content` as its body.
pub fn templated(content: &str) -> (page: String)
    ensures
        page@ == PAGE_HEAD@ + content@ + PAGE_TAIL@,
{
    let mut page = String::from_str(PAGE_HEAD);
    page.append(content);
    page.append(PAGE_TAIL);
    page
}

/// The index page.
pub fn index_html() -> (page: String)
    ensures
        page@ == PAGE_HEAD@ + INDEX_CONTENT@ + PAGE_TAIL@,
{
    templated(INDEX_CONTENT)
}

} // verus!
