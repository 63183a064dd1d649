//! Paths, and the directories of the application.

use vstd::prelude::*;
use vstd::string::*;
use vstd::utf8::{
    decode_utf8, decode_utf8_encode_utf8, encode_utf8, encode_utf8_decode_utf8,
    encode_utf8_valid_utf8, valid_utf8,
};

use crate::host::HostPlatform;
use crate::utf8::{lossy_text, text_from_utf8, text_from_utf8_lossy};

verus! {

/// A path, held in the bytes in which the platform's texts are encoded: UTF-8 where the path is a
/// Unicode text. Where it is none, the bytes are those of the path itself on Unix, and on Windows a
/// unit that is a surrogate without its partner stands in the form that UTF-8 has no use for.
#[derive(Debug, PartialEq, Eq)]
pub struct OsPath {
    pub bytes: Vec<u8>,
}

impl View for OsPath {
    type V = Seq<u8>;

    open spec fn view(&self) -> Seq<u8> {
        self.bytes@
    }
}

impl DeepView for OsPath {
    type V = Seq<u8>;

    open spec fn deep_view(&self) -> Seq<u8> {
        self@
    }
}

impl Clone for OsPath {
    fn clone(&self) -> (r: Self)
        ensures
            r@ == self@,
    {
        OsPath { bytes: self.bytes.clone() }
    }
}

/// `name` is one plain component of a path: it is no mark for a directory, and it holds no
/// separator and no drive mark.
pub open spec fn is_plain_name(name: Seq<char>) -> bool {
    &&& name.len() > 0
    &&& name != "."@
    &&& name != ".."@
    &&& forall|i: int|
        0 <= i < name.len() ==> #[trigger] name[i] != '/' && name[i] != '\\' && name[i] != ':'
}

/// The path ends in a separator of the platform.
pub open spec fn ends_in_separator(host: HostPlatform, path: Seq<u8>) -> bool {
    path.len() > 0 && (path.last() == 0x2F || (host == HostPlatform::Windows && path.last()
        == 0x5C))
}

/// A drive of Windows, such as `C:`, stands at `at`.
pub open spec fn is_drive_at(path: Seq<u8>, at: int) -> bool {
    at + 2 <= path.len() && (0x41 <= path[at] <= 0x5A || 0x61 <= path[at] <= 0x7A) && path[at + 1]
        == 0x3A
}

/// The path is one of Windows' verbatim paths: it begins with `\\?\`.
pub open spec fn is_verbatim(path: Seq<u8>) -> bool {
    path.len() >= 4 && path[0] == 0x5C && path[1] == 0x5C && path[2] == 0x3F && path[3] == 0x5C
}

/// How much of a verbatim path stands before its first component: `\\?\`, or with `UNC\` behind it.
pub open spec fn verbatim_start(path: Seq<u8>) -> int {
    if path.len() >= 8 && path[4] == 0x55 && path[5] == 0x4E && path[6] == 0x43 && (path[7] == 0x5C
        || path[7] == 0x2F) {
        8
    } else {
        4
    }
}

/// A verbatim path with a backslash for the separator behind its drive.
pub open spec fn rooted(path: Seq<u8>) -> Seq<u8> {
    if is_drive_at(path, 4) && path.len() > 6 && path[6] == 0x2F {
        path.update(6, 0x5C)
    } else {
        path
    }
}

/// The components of a path with one backslash between any two, and none at the end.
pub open spec fn squeezed(path: Seq<u8>) -> Seq<u8>
    decreases path.len(),
{
    if path.len() == 0 {
        Seq::empty()
    } else if path[0] == 0x5C && (path.len() == 1 || path[1] == 0x5C) {
        squeezed(path.skip(1))
    } else {
        seq![path[0]] + squeezed(path.skip(1))
    }
}

/// The path of `name` in the directory `base`. There is one separator between them, the platform's
/// own where `base` does not end in one already. On Windows a bare drive gets none, and a verbatim
/// path is put together anew out of its components.
pub open spec fn joined(host: HostPlatform, base: Seq<u8>, name: Seq<u8>) -> Seq<u8> {
    if base.len() == 0 {
        name
    } else if host == HostPlatform::Windows && is_verbatim(base) {
        let start = verbatim_start(base);
        (base.take(start) + squeezed(rooted(base).skip(start))).push(0x5C) + name
    } else if ends_in_separator(host, base) || (host == HostPlatform::Windows && base.len() == 2
        && is_drive_at(base, 0)) {
        base + name
    } else if host == HostPlatform::Windows {
        base.push(0x5C) + name
    } else {
        base.push(0x2F) + name
    }
}

/// The bytes with the mark for what is no text in place of each surrogate without its partner.
pub open spec fn surrogates_marked(bytes: Seq<u8>) -> Seq<u8>
    decreases bytes.len(),
{
    if bytes.len() == 0 {
        Seq::empty()
    } else if bytes.len() >= 3 && bytes[0] == 0xED && 0xA0 <= bytes[1] <= 0xBF && 0x80 <= bytes[2]
        <= 0xBF {
        seq![0xEFu8, 0xBFu8, 0xBDu8] + surrogates_marked(bytes.skip(3))
    } else {
        seq![bytes[0]] + surrogates_marked(bytes.skip(1))
    }
}

/// The path as a text, with marks in place of what is no text.
pub open spec fn path_text(host: HostPlatform, path: Seq<u8>) -> Seq<char> {
    if valid_utf8(path) {
        decode_utf8(path)
    } else if host == HostPlatform::Windows {
        lossy_text(surrogates_marked(path))
    } else {
        lossy_text(path)
    }
}

fn squeeze(path: &Vec<u8>, start: usize) -> (r: Vec<u8>)
    requires
        start <= path@.len(),
    ensures
        r@ == squeezed(path@.skip(start as int)),
{
    let ghost whole = path@.skip(start as int);
    let mut r: Vec<u8> = Vec::new();
    let mut i: usize = start;
    assert(r@ + squeezed(whole) == squeezed(whole));
    while i < path.len()
        invariant
            start <= i <= path@.len(),
            squeezed(whole) == r@ + squeezed(path@.skip(i as int)),
        decreases path.len() - i,
    {
        let ghost rest = path@.skip(i as int);
        let ghost before = r@;
        assert(rest.skip(1) == path@.skip(i + 1));
        let last: bool = i == path.len() - 1;
        if !(path[i] == 0x5C && (last || path[i + 1] == 0x5C)) {
            r.push(path[i]);
            assert(before + (seq![rest[0]] + squeezed(rest.skip(1))) == r@ + squeezed(
                rest.skip(1),
            ));
        }
        i = i + 1;
    }
    assert(path@.skip(i as int) == Seq::<u8>::empty());
    assert(r@ + Seq::<u8>::empty() == r@);
    r
}

fn mark_surrogates(bytes: &Vec<u8>) -> (r: Vec<u8>)
    ensures
        r@ == surrogates_marked(bytes@),
{
    let mut r: Vec<u8> = Vec::new();
    let mut i: usize = 0;
    assert(bytes@.skip(0) == bytes@);
    assert(r@ + surrogates_marked(bytes@) == surrogates_marked(bytes@));
    while i < bytes.len()
        invariant
            i <= bytes@.len(),
            surrogates_marked(bytes@) == r@ + surrogates_marked(bytes@.skip(i as int)),
        decreases bytes.len() - i,
    {
        let ghost rest = bytes@.skip(i as int);
        let ghost before = r@;
        let surrogate: bool = bytes.len() - i >= 3 && bytes[i] == 0xED && 0xA0 <= bytes[i + 1]
            && bytes[i + 1] <= 0xBF && 0x80 <= bytes[i + 2] && bytes[i + 2] <= 0xBF;
        if surrogate {
            r.push(0xEF);
            r.push(0xBF);
            r.push(0xBD);
            assert(rest.skip(3) == bytes@.skip(i + 3));
            assert(before + (seq![0xEFu8, 0xBFu8, 0xBDu8] + surrogates_marked(rest.skip(3))) == r@
                + surrogates_marked(rest.skip(3)));
            i = i + 3;
        } else {
            r.push(bytes[i]);
            assert(rest.skip(1) == bytes@.skip(i + 1));
            assert(before + (seq![rest[0]] + surrogates_marked(rest.skip(1))) == r@
                + surrogates_marked(rest.skip(1)));
            i = i + 1;
        }
    }
    assert(bytes@.skip(i as int) == Seq::<u8>::empty());
    assert(r@ + Seq::<u8>::empty() == r@);
    r
}

fn copy_of_first(bytes: &Vec<u8>, count: usize) -> (r: Vec<u8>)
    requires
        count <= bytes@.len(),
    ensures
        r@ == bytes@.take(count as int),
{
    let mut r: Vec<u8> = Vec::new();
    for i in 0..count
        invariant
            count <= bytes@.len(),
            r@ == bytes@.take(i as int),
    {
        r.push(bytes[i]);
        assert(bytes@.take(i + 1) == bytes@.take(i as int).push(bytes@[i as int]));
    }
    r
}

fn drive_at(path: &Vec<u8>, at: usize) -> (r: bool)
    requires
        at <= 4,
    ensures
        r == is_drive_at(path@, at as int),
{
    path.len() >= at + 2 && ((0x41 <= path[at] && path[at] <= 0x5A) || (0x61 <= path[at] && path[at]
        <= 0x7A)) && path[at + 1] == 0x3A
}

fn rooted_copy(path: &Vec<u8>) -> (r: Vec<u8>)
    ensures
        r@ == rooted(path@),
{
    let mut r = path.clone();
    if drive_at(path, 4) && path.len() > 6 && path[6] == 0x2F {
        r.set(6, 0x5C);
    }
    r
}

impl OsPath {
    /// The path that a text names.
    pub fn from_text(text: &str) -> (r: Self)
        ensures
            r@ == encode_utf8(text@),
    {
        OsPath { bytes: text.as_bytes_vec() }
    }

    /// The path as a text, with marks in place of what is no text.
    pub fn to_text(&self, host: HostPlatform) -> (r: String)
        ensures
            r@ == path_text(host, self@),
    {
        match text_from_utf8(self.bytes.clone()) {
            Ok(text) => text,
            Err(_) => match host {
                HostPlatform::Windows => {
                    let marked = mark_surrogates(&self.bytes);
                    text_from_utf8_lossy(&marked)
                },
                _ => text_from_utf8_lossy(&self.bytes),
            },
        }
    }

    /// The path of `name` in this directory.
    pub(crate) fn join(&self, host: HostPlatform, name: &str) -> (r: Self)
        requires
            is_plain_name(name@),
        ensures
            r@ == joined(host, self@, encode_utf8(name@)),
    {
        let base = &self.bytes;
        let count: usize = base.len();
        let mut tail = name.as_bytes_vec();
        let ghost named = tail@;
        if count == 0 {
            return OsPath { bytes: tail };
        }
        let windows: bool = match host {
            HostPlatform::Windows => true,
            _ => false,
        };
        let verbatim: bool = windows && count >= 4 && base[0] == 0x5C && base[1] == 0x5C && base[2]
            == 0x3F && base[3] == 0x5C;
        if verbatim {
            let unc: bool = count >= 8 && base[4] == 0x55 && base[5] == 0x4E && base[6] == 0x43 && (
            base[7] == 0x5C || base[7] == 0x2F);
            let start: usize = if unc {
                8
            } else {
                4
            };
            let mut bytes = copy_of_first(base, start);
            let mut rest = squeeze(&rooted_copy(base), start);
            bytes.append(&mut rest);
            bytes.push(0x5C);
            bytes.append(&mut tail);
            assert(bytes@ == joined(host, self@, named));
            return OsPath { bytes };
        }
        let last: u8 = base[count - 1];
        let drive: bool = windows && count == 2 && drive_at(base, 0);
        let mut bytes = copy_of_first(base, count);
        assert(bytes@ == self@);
        if !(last == 0x2F || (windows && last == 0x5C) || drive) {
            if windows {
                bytes.push(0x5C);
            } else {
                bytes.push(0x2F);
            }
        }
        bytes.append(&mut tail);
        assert(bytes@ == joined(host, self@, named));
        OsPath { bytes }
    }
}

/// A path that a text names is that text again.
pub proof fn law_path_text(host: HostPlatform, text: Seq<char>)
    ensures
        path_text(host, encode_utf8(text)) == text,
{
    encode_utf8_valid_utf8(text);
    encode_utf8_decode_utf8(text);
}

/// A path that is a text is named by that text.
pub proof fn law_named_path(host: HostPlatform, path: Seq<u8>)
    requires
        valid_utf8(path),
    ensures
        encode_utf8(path_text(host, path)) == path,
{
    decode_utf8_encode_utf8(path);
}

/// A path that is no text has marks in place of what is none: on Unix those of the decoding, on
/// Windows one for each surrogate without its partner.
pub proof fn law_unnamed_path(host: HostPlatform, path: Seq<u8>)
    requires
        !valid_utf8(path),
    ensures
        host != HostPlatform::Windows ==> path_text(host, path) == lossy_text(path),
        host == HostPlatform::Windows ==> path_text(host, path) == lossy_text(
            surrogates_marked(path),
        ),
{
}

/// The bytes of a surrogate become those of U+FFFD, and every other byte stays as it is.
pub proof fn law_surrogates_marked(first: u8, second: u8, third: u8, rest: Seq<u8>)
    ensures
        surrogates_marked(Seq::empty()).len() == 0,
        first == 0xED && 0xA0 <= second <= 0xBF && 0x80 <= third <= 0xBF ==> surrogates_marked(
            seq![first, second, third] + rest,
        ) == seq![0xEFu8, 0xBFu8, 0xBDu8] + surrogates_marked(rest),
        first != 0xED ==> surrogates_marked(seq![first] + rest) == seq![first] + surrogates_marked(
            rest,
        ),
        !(0xA0 <= second <= 0xBF && 0x80 <= third <= 0xBF) ==> surrogates_marked(
            seq![first, second, third] + rest,
        ) == seq![first] + surrogates_marked(seq![second, third] + rest),
        surrogates_marked(seq![first]) == seq![first],
        surrogates_marked(seq![first, second]) == seq![first] + surrogates_marked(seq![second]),
{
    assert((seq![first] + rest).skip(1) == rest);
    let three = seq![first, second, third] + rest;
    assert(three.skip(3) == rest);
    assert(three.skip(1) == seq![second, third] + rest);
    assert(seq![first, second].skip(1) == seq![second]);
    assert(seq![first].skip(1) == Seq::<u8>::empty());
    assert(surrogates_marked(Seq::<u8>::empty()) == Seq::<u8>::empty());
    assert(seq![first] + Seq::<u8>::empty() == seq![first]);
}

/// Elsewhere than on Windows the name comes behind the directory and a slash, unless the directory
/// ends in one or is empty. On Windows it comes behind the directory and a backslash, unless the
/// directory ends in either of the two, is empty or is a bare drive; verbatim paths aside.
pub proof fn law_joined(host: HostPlatform, base: Seq<u8>, name: Seq<u8>)
    ensures
        joined(host, Seq::empty(), name) == name,
        base.len() > 0 && host != HostPlatform::Windows ==> joined(host, base, name) == (
        if base.last() == 0x2F {
            base + name
        } else {
            base + seq![0x2Fu8] + name
        }),
        base.len() > 0 && host == HostPlatform::Windows && !(base.len() >= 4 && base.take(4)
            == seq![0x5Cu8, 0x5C, 0x3F, 0x5C]) ==> joined(host, base, name) == (if base.last()
            == 0x2F || base.last() == 0x5C {
            base + name
        } else if base.len() == 2 && base[1] == 0x3A && (0x41 <= base[0] <= 0x5A || 0x61 <= base[0]
            <= 0x7A) {
            base + name
        } else {
            base + seq![0x5Cu8] + name
        }),
{
    assert(base.push(0x2F) == base + seq![0x2Fu8]);
    assert(base.push(0x5C) == base + seq![0x5Cu8]);
    if is_verbatim(base) {
        assert(base.take(4) == seq![0x5Cu8, 0x5C, 0x3F, 0x5C]);
    }
}

/// Behind a verbatim path of Windows the name comes behind one backslash. What stands before the
/// first component is kept as it is, and of the rest only backslashes that are doubled or at the
/// end are lost; a slash behind the drive becomes a backslash.
pub proof fn law_joined_verbatim(rest: Seq<u8>, name: Seq<u8>)
    ensures
        ({
            let start = seq![0x5Cu8, 0x5C, 0x3F, 0x5C];
            let network = rest.len() >= 4 && rest.take(3) == seq![0x55u8, 0x4E, 0x43] && (rest[3]
                == 0x5C || rest[3] == 0x2F);
            let slashed = rest.len() >= 3 && rest[1] == 0x3A && rest[2] == 0x2F && (0x41 <= rest[0]
                <= 0x5A || 0x61 <= rest[0] <= 0x7A);
            let path = joined(HostPlatform::Windows, start + rest, name);
            &&& network ==> path == start + rest.take(4) + squeezed(rest.skip(4)) + seq![0x5Cu8]
                + name
            &&& !network && slashed ==> path == start + squeezed(rest.update(2, 0x5C))
                + seq![0x5Cu8] + name
            &&& !network && !slashed ==> path == start + squeezed(rest) + seq![0x5Cu8] + name
        }),
{
    let start = seq![0x5Cu8, 0x5C, 0x3F, 0x5C];
    let base = start + rest;
    assert forall|i: int| 0 <= i < rest.len() implies base[4 + i] == #[trigger] rest[i] by {}
    assert(is_verbatim(base));
    let network = rest.len() >= 4 && rest.take(3) == seq![0x55u8, 0x4E, 0x43] && (rest[3] == 0x5C
        || rest[3] == 0x2F);
    if network {
        assert(rest.take(3)[0] == rest[0] && rest.take(3)[1] == rest[1] && rest.take(3)[2]
            == rest[2]);
        assert(verbatim_start(base) == 8);
        assert(base.take(8) == start + rest.take(4));
        assert(rooted(base) == base);
        assert(base.skip(8) == rest.skip(4));
    } else {
        if verbatim_start(base) == 8 {
            assert(rest.take(3) == seq![0x55u8, 0x4E, 0x43]);
        }
        assert(base.take(4) == start);
        let slashed = rest.len() >= 3 && rest[1] == 0x3A && rest[2] == 0x2F && (0x41 <= rest[0]
            <= 0x5A || 0x61 <= rest[0] <= 0x7A);
        if slashed {
            assert(rooted(base).skip(4) == rest.update(2, 0x5C));
        } else {
            assert(rooted(base).skip(4) == rest);
        }
    }
    let front = base.take(verbatim_start(base)) + squeezed(
        rooted(base).skip(verbatim_start(base)),
    );
    assert(front.push(0x5C) == front + seq![0x5Cu8]);
}

/// A backslash at the end is lost, and so is one of two behind one another. A path without such is
/// kept as it is.
pub proof fn law_squeezed(front: Seq<u8>, back: Seq<u8>)
    ensures
        squeezed(front.push(0x5C)) == squeezed(front),
        squeezed(front + seq![0x5Cu8, 0x5C] + back) == squeezed(front + seq![0x5Cu8] + back),
        (front.len() > 0 ==> front.last() != 0x5C) && (forall|i: int|
            0 <= i < front.len() - 1 ==> !(#[trigger] front[i] == 0x5C && front[i + 1] == 0x5C))
            ==> squeezed(front) == front,
    decreases front.len(),
{
    let ended = front.push(0x5C);
    let doubled = front + seq![0x5Cu8, 0x5C] + back;
    let single = front + seq![0x5Cu8] + back;
    if front.len() == 0 {
        assert(ended.skip(1) == front);
        assert(doubled[0] == 0x5C && doubled[1] == 0x5C);
        assert(doubled.skip(1) == single);
    } else {
        let rest = front.skip(1);
        law_squeezed(rest, back);
        assert(ended.skip(1) == rest.push(0x5C));
        assert(doubled.skip(1) == rest + seq![0x5Cu8, 0x5C] + back);
        assert(single.skip(1) == rest + seq![0x5Cu8] + back);
        assert(ended[0] == front[0] && doubled[0] == front[0] && single[0] == front[0]);
        if front.len() > 1 {
            assert(ended[1] == front[1] && doubled[1] == front[1] && single[1] == front[1]);
            assert(rest.last() == front.last());
        } else {
            assert(rest == Seq::<u8>::empty());
            assert(ended[1] == 0x5C && doubled[1] == 0x5C && single[1] == 0x5C);
            if front[0] == 0x5C {
                assert(squeezed(rest.push(0x5C)) == Seq::<u8>::empty());
            }
        }
        if (front.last() != 0x5C) && (forall|i: int|
            0 <= i < front.len() - 1 ==> !(#[trigger] front[i] == 0x5C && front[i + 1] == 0x5C)) {
            assert forall|i: int| 0 <= i < rest.len() - 1 implies !(#[trigger] rest[i] == 0x5C
                && rest[i + 1] == 0x5C) by {
                assert(rest[i] == front[i + 1]);
                assert(rest[i + 1] == front[i + 2]);
            }
            assert(!(front[0] == 0x5C && (front.len() == 1 || front[1] == 0x5C)));
            assert(seq![front[0]] + rest == front);
        }
    }
}

/// The directories that the application works in.
#[derive(Debug, PartialEq, Eq)]
pub struct AppPaths {
    /// What the user configures.
    pub config_dir: OsPath,
    /// What the application keeps.
    pub data_dir: OsPath,
    /// What can be made again.
    pub cache_dir: OsPath,
    /// The core and the files that it makes.
    pub cores_dir: OsPath,
    /// Logs.
    pub logs_dir: OsPath,
    /// Earlier versions of written files.
    pub backups_dir: OsPath,
}

/// What an `AppPaths` holds.
pub struct AppPathsView {
    pub config_dir: Seq<u8>,
    pub data_dir: Seq<u8>,
    pub cache_dir: Seq<u8>,
    pub cores_dir: Seq<u8>,
    pub logs_dir: Seq<u8>,
    pub backups_dir: Seq<u8>,
}

impl View for AppPaths {
    type V = AppPathsView;

    open spec fn view(&self) -> AppPathsView {
        AppPathsView {
            config_dir: self.config_dir@,
            data_dir: self.data_dir@,
            cache_dir: self.cache_dir@,
            cores_dir: self.cores_dir@,
            logs_dir: self.logs_dir@,
            backups_dir: self.backups_dir@,
        }
    }
}

impl Clone for AppPaths {
    fn clone(&self) -> (r: Self)
        ensures
            r@ == self@,
    {
        AppPaths {
            config_dir: self.config_dir.clone(),
            data_dir: self.data_dir.clone(),
            cache_dir: self.cache_dir.clone(),
            cores_dir: self.cores_dir.clone(),
            logs_dir: self.logs_dir.clone(),
            backups_dir: self.backups_dir.clone(),
        }
    }
}

} // verus!
