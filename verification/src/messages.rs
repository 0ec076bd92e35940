use vstd::prelude::*;
use vstd::string::StringExecFns;

verus! {

// Every fatal condition surfaces as a single terminal error status whose
// message identifies the offending manifest entry, file or archive. The
// spec functions below fix those messages exactly; the exec builders are
// proved to produce them.
pub open spec fn msg_fetch_failed(detail: Seq<char>) -> Seq<char> {
    "Failed to retrieve the patch list: "@ + detail + "."@
}

pub open spec fn msg_patcher_name_unresolved() -> Seq<char> {
    "Failed to resolve patcher name."@
}

pub open spec fn msg_temp_file_failed(detail: Seq<char>) -> Seq<char> {
    "Failed to download patches: could not create a temporary file: "@ + detail + "."@
}

pub open spec fn msg_invalid_file_name(name: Seq<char>) -> Seq<char> {
    "Failed to download patches: invalid file name '"@ + name + "' given in the patch list."@
}

pub open spec fn msg_patch_not_found(name: Seq<char>) -> Seq<char> {
    "Failed to download patches: patch file '"@ + name + "' not found on the remote server."@
}

pub open spec fn msg_transfer_failed(name: Seq<char>, detail: Seq<char>) -> Seq<char> {
    "Failed to download patches: could not download file '"@ + name + "': "@ + detail + "."@
}

pub open spec fn msg_package_unreadable(name: Seq<char>, detail: Seq<char>) -> Seq<char> {
    "Failed to apply patches: cannot read '"@ + name + "': "@ + detail + "."@
}

pub open spec fn msg_archive_patch_failed(target: Seq<char>, detail: Seq<char>) -> Seq<char> {
    "Failed to apply patches: could not patch '"@ + target + "': "@ + detail + "."@
}

pub open spec fn msg_tree_patch_failed(name: Seq<char>, detail: Seq<char>) -> Seq<char> {
    "Failed to apply patches: could not apply patch '"@ + name + "': "@ + detail + "."@
}

pub(crate) fn concat3(a: &str, b: &str, c: &str) -> (r: String)
    ensures
        r@ == a@ + b@ + c@,
{
    let mut s = String::from_str(a);
    s.append(b);
    s.append(c);
    proof {
        assert(s@ =~= a@ + b@ + c@);
    }
    s
}

pub(crate) fn concat5(a: &str, b: &str, c: &str, d: &str, e: &str) -> (r: String)
    ensures
        r@ == a@ + b@ + c@ + d@ + e@,
{
    let mut s = String::from_str(a);
    s.append(b);
    s.append(c);
    s.append(d);
    s.append(e);
    proof {
        assert(s@ =~= a@ + b@ + c@ + d@ + e@);
    }
    s
}

pub(crate) fn build_fetch_failed(detail: &str) -> (r: String)
    ensures
        r@ == msg_fetch_failed(detail@),
{
    concat3("Failed to retrieve the patch list: ", detail, ".")
}

pub(crate) fn build_patcher_name_unresolved() -> (r: String)
    ensures
        r@ == msg_patcher_name_unresolved(),
{
    String::from_str("Failed to resolve patcher name.")
}

pub(crate) fn build_temp_file_failed(detail: &str) -> (r: String)
    ensures
        r@ == msg_temp_file_failed(detail@),
{
    concat3("Failed to download patches: could not create a temporary file: ", detail, ".")
}

pub(crate) fn build_invalid_file_name(name: &str) -> (r: String)
    ensures
        r@ == msg_invalid_file_name(name@),
{
    concat3(
        "Failed to download patches: invalid file name '",
        name,
        "' given in the patch list.",
    )
}

pub(crate) fn build_patch_not_found(name: &str) -> (r: String)
    ensures
        r@ == msg_patch_not_found(name@),
{
    concat3(
        "Failed to download patches: patch file '",
        name,
        "' not found on the remote server.",
    )
}

pub(crate) fn build_transfer_failed(name: &str, detail: &str) -> (r: String)
    ensures
        r@ == msg_transfer_failed(name@, detail@),
{
    concat5("Failed to download patches: could not download file '", name, "': ", detail, ".")
}

pub(crate) fn build_package_unreadable(name: &str, detail: &str) -> (r: String)
    ensures
        r@ == msg_package_unreadable(name@, detail@),
{
    concat5("Failed to apply patches: cannot read '", name, "': ", detail, ".")
}

pub(crate) fn build_archive_patch_failed(target: &str, detail: &str) -> (r: String)
    ensures
        r@ == msg_archive_patch_failed(target@, detail@),
{
    concat5("Failed to apply patches: could not patch '", target, "': ", detail, ".")
}

pub(crate) fn build_tree_patch_failed(name: &str, detail: &str) -> (r: String)
    ensures
        r@ == msg_tree_patch_failed(name@, detail@),
{
    concat5("Failed to apply patches: could not apply patch '", name, "': ", detail, ".")
}

} // verus!
