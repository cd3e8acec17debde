use vstd::prelude::*;
use vstd::utf8::valid_utf8;

verus! {

/// The bytes written for the loader's own module name: `dreamseeker.exe` and a NUL.
pub open spec fn module_name_bytes() -> Seq<u8> {
    seq![
        0x64u8, 0x72u8, 0x65u8, 0x61u8, 0x6Du8, 0x73u8, 0x65u8, 0x65u8,
        0x6Bu8, 0x65u8, 0x72u8, 0x2Eu8, 0x65u8, 0x78u8, 0x65u8, 0x00u8,
    ]
}

/// The hook on `GetModuleFileNameW`, for the call's module `handle`, the address at which the
/// game's image was mapped (`own_handle`) and the caller's buffer. For any other module it
/// returns `None` and the call goes on to the hooked function. For the game's image it answers
/// `dreamseeker.exe`: with a buffer of fewer than 16 bytes nothing is written and 0 returned;
/// otherwise the name and its NUL fill the first 16 bytes and 15 is returned.
pub fn get_module_file_name_w_hook(handle: usize, own_handle: usize, buffer: &mut [u8]) -> (r: Option<usize>)
    ensures
        handle != own_handle ==> r is None && final(buffer)@ == old(buffer)@,
        handle == own_handle && old(buffer)@.len() < 16 ==> r == Some(0usize) && final(buffer)@
            == old(buffer)@,
        handle == own_handle && old(buffer)@.len() >= 16 ==> r == Some(15usize) && final(buffer)@
            == module_name_bytes() + old(buffer)@.subrange(16, old(buffer)@.len() as int),
{
    if handle != own_handle {
        return None;
    }
    if buffer.len() < 16 {
        return Some(0);
    }
    let name: [u8; 16] = [
        0x64, 0x72, 0x65, 0x61, 0x6D, 0x73, 0x65, 0x65, 0x6B, 0x65, 0x72, 0x2E, 0x65, 0x78, 0x65, 0x00,
    ];
    assert(name@ == module_name_bytes());
    let ghost old_buf = buffer@;
    let mut i: usize = 0;
    while i < 16
        invariant
            i <= 16,
            buffer@.len() == old_buf.len(),
            old_buf.len() >= 16,
            name@ == module_name_bytes(),
            forall|j: int| 0 <= j < i ==> #[trigger] buffer@[j] == module_name_bytes()[j],
            forall|j: int| i <= j < old_buf.len() ==> #[trigger] buffer@[j] == old_buf[j],
        decreases 16 - i,
    {
        buffer[i] = name[i];
        i = i + 1;
    }
    assert(buffer@ =~= module_name_bytes() + old_buf.subrange(16, old_buf.len() as int));
    Some(15)
}

/// Whether `bytes` is well-formed UTF-8, by `std::str::from_utf8`, which returns `Ok` exactly
/// for valid UTF-8 (no overlong forms, no surrogates, nothing above U+10FFFF).
#[verifier::external_body]
fn utf8_is_valid(bytes: &[u8]) -> (r: bool)
    ensures
        r == valid_utf8(bytes@),
{
    std::str::from_utf8(bytes).is_ok()
}

/// True when `s` begins with `p`.
pub open spec fn has_prefix(s: Seq<u8>, p: Seq<u8>) -> bool {
    p.len() <= s.len() && s.subrange(0, p.len() as int) == p
}

fn starts_with(s: &[u8], p: &[u8]) -> (r: bool)
    ensures
        r == has_prefix(s@, p@),
{
    if p.len() > s.len() {
        return false;
    }
    let mut i: usize = 0;
    while i < p.len()
        invariant
            p@.len() <= s@.len(),
            i <= p@.len(),
            forall|j: int| 0 <= j < i ==> s@[j] == p@[j],
        decreases p@.len() - i,
    {
        if s[i] != p[i] {
            assert(s@.subrange(0, p@.len() as int)[i as int] != p@[i as int]);
            return false;
        }
        i = i + 1;
    }
    assert(s@.subrange(0, p@.len() as int) =~= p@);
    true
}

/// The index of the first NUL byte of `s`, for an `s` that holds one.
pub open spec fn first_nul(s: Seq<u8>) -> int {
    choose|i: int| 0 <= i < s.len() && s[i] == 0 && forall|j: int| 0 <= j < i ==> s[j] != 0
}

/// The window class name held in a NUL-terminated buffer.
pub open spec fn class_name(s: Seq<u8>) -> Seq<u8> {
    s.subrange(0, first_nul(s))
}

/// The bytes of `Chrome_`.
pub open spec fn chrome_prefix() -> Seq<u8> {
    seq![0x43u8, 0x68u8, 0x72u8, 0x6Fu8, 0x6Du8, 0x65u8, 0x5Fu8]
}

/// The bytes of `Cef`.
pub open spec fn cef_prefix() -> Seq<u8> {
    seq![0x43u8, 0x65u8, 0x66u8]
}

pub open spec fn is_chromium_class_name(name: Seq<u8>) -> bool {
    valid_utf8(name) && (has_prefix(name, chrome_prefix()) || has_prefix(name, cef_prefix()))
}

/// `has_prefix(s, p)` holds exactly when `s` is at least as long as `p` and agrees with it on
/// every position of `p`; the class name ends at the first NUL, holds no NUL itself and is
/// followed by one.
pub proof fn lemma_class_name_and_prefix(s: Seq<u8>, p: Seq<u8>)
    ensures
        has_prefix(s, p) <==> (p.len() <= s.len() && forall|i: int| 0 <= i < p.len() ==> s[i] == p[i]),
        (exists|i: int| 0 <= i < s.len() && s[i] == 0) ==> ({
            let n = class_name(s);
            &&& n.len() < s.len()
            &&& s[n.len() as int] == 0
            &&& forall|j: int| 0 <= j < n.len() ==> n[j] != 0 && n[j] == s[j]
        }),
        chrome_prefix().len() == 7 && cef_prefix().len() == 3,
{
    if p.len() <= s.len() && forall|i: int| 0 <= i < p.len() ==> s[i] == p[i] {
        assert(s.subrange(0, p.len() as int) =~= p);
    }
    if has_prefix(s, p) {
        assert forall|i: int| 0 <= i < p.len() implies s[i] == p[i] by {
            assert(s.subrange(0, p.len() as int)[i] == p[i]);
        }
    }
    if exists|i: int| 0 <= i < s.len() && s[i] == 0 {
        let w = choose|i: int| 0 <= i < s.len() && s[i] == 0;
        // The smallest index of a NUL exists; `first_nul` picks it.
        let k = smallest_nul(s, w);
        assert(0 <= k < s.len() && s[k] == 0 && forall|j: int| 0 <= j < k ==> s[j] != 0);
    }
}

proof fn smallest_nul(s: Seq<u8>, w: int) -> (k: int)
    requires
        0 <= w < s.len(),
        s[w] == 0,
    ensures
        0 <= k <= w,
        s[k] == 0,
        forall|j: int| 0 <= j < k ==> s[j] != 0,
    decreases w,
{
    if exists|j: int| 0 <= j < w && s[j] == 0 {
        let j = choose|j: int| 0 <= j < w && s[j] == 0;
        smallest_nul(s, j)
    } else {
        w
    }
}

/// The decision of the hook on `CWinThread::PreTranslateMessage`, given the NUL-terminated class
/// name of the message's window: messages for Chromium's windows (classes `Chrome_*` and `Cef*`)
/// skip MFC's translation and are translated and dispatched directly. A class name that is not
/// UTF-8 is left to MFC.
pub fn is_chromium_window_class(class: &[u8]) -> (r: bool)
    requires
        exists|i: int| 0 <= i < class@.len() && class@[i] == 0,
    ensures
        r == is_chromium_class_name(class_name(class@)),
{
    let mut t: usize = 0;
    while class[t] != 0
        invariant
            t < class@.len(),
            exists|i: int| t <= i < class@.len() && class@[i] == 0,
            forall|j: int| 0 <= j < t ==> class@[j] != 0,
        decreases class@.len() - t,
    {
        t = t + 1;
        assert(t < class@.len());
    }
    assert(first_nul(class@) == t) by {
        let k = first_nul(class@);
        assert(0 <= t < class@.len() && class@[t as int] == 0 && forall|j: int|
            0 <= j < t ==> class@[j] != 0);
        if k < t {
            assert(class@[k] != 0);
        } else if k > t {
        }
    }
    let name = vstd::slice::slice_subrange(class, 0, t);
    let chrome: [u8; 7] = [0x43, 0x68, 0x72, 0x6F, 0x6D, 0x65, 0x5F];
    let cef: [u8; 3] = [0x43, 0x65, 0x66];
    assert(chrome@ == chrome_prefix());
    assert(cef@ == cef_prefix());
    if !utf8_is_valid(name) {
        return false;
    }
    starts_with(name, chrome.as_slice()) || starts_with(name, cef.as_slice())
}


/// A COM class identifier, laid out as the hook on `CoGetClassObject` receives it.
#[derive(Clone, Copy)]
pub struct Clsid {
    pub data1: u32,
    pub data2: u16,
    pub data3: u16,
    pub data4: u16,
    pub data5: [u8; 6],
}

/// `CLSID_WebBrowser`, {8856F961-340A-11D0-A96B-00C04FD705A2}, as the hook compares it.
pub open spec fn is_web_browser_clsid(c: Clsid) -> bool {
    &&& c.data1 == 0x8856F961
    &&& c.data2 == 0x340A
    &&& c.data3 == 0x11D0
    &&& c.data4 == 0x6BA9
    &&& c.data5@ == seq![0x00u8, 0xC0u8, 0x4Fu8, 0xD7u8, 0x05u8, 0xA2u8]
}

/// Only the one class identifier {8856F961-340A-11D0-A96B-00C04FD705A2} is the web browser:
/// every field and every byte of the last part must match.
pub proof fn lemma_web_browser_clsid_is_exact(c: Clsid)
    ensures
        is_web_browser_clsid(c) <==> (c.data1 == 0x8856F961u32 && c.data2 == 0x340Au16 && c.data3
            == 0x11D0u16 && c.data4 == 0x6BA9u16 && c.data5[0] == 0x00u8 && c.data5[1] == 0xC0u8
            && c.data5[2] == 0x4Fu8 && c.data5[3] == 0xD7u8 && c.data5[4] == 0x05u8 && c.data5[5]
            == 0xA2u8),
{
    if c.data5[0] == 0x00u8 && c.data5[1] == 0xC0u8 && c.data5[2] == 0x4Fu8 && c.data5[3] == 0xD7u8
        && c.data5[4] == 0x05u8 && c.data5[5] == 0xA2u8 {
        assert(c.data5@ =~= seq![0x00u8, 0xC0u8, 0x4Fu8, 0xD7u8, 0x05u8, 0xA2u8]);
    }
}

impl Clsid {
    /// True for the web browser class, whose class object the loader supplies itself; requests
    /// for every other class go on to the real `CoGetClassObject`.
    pub fn is_web_browser(&self) -> (r: bool)
        ensures
            r == is_web_browser_clsid(*self),
    {
        let expected: [u8; 6] = [0x00, 0xC0, 0x4F, 0xD7, 0x05, 0xA2];
        if self.data1 != 0x8856F961 || self.data2 != 0x340A || self.data3 != 0x11D0 || self.data4
            != 0x6BA9 {
            return false;
        }
        let mut i: usize = 0;
        while i < 6
            invariant
                i <= 6,
                expected@ == seq![0x00u8, 0xC0u8, 0x4Fu8, 0xD7u8, 0x05u8, 0xA2u8],
                self.data5@.len() == 6,
                forall|j: int| 0 <= j < i ==> self.data5@[j] == expected@[j],
            decreases 6 - i,
        {
            if self.data5[i] != expected[i] {
                return false;
            }
            i = i + 1;
        }
        assert(self.data5@ =~= expected@);
        true
    }
}

/// True when `pattern` occurs in `s`.
pub open spec fn contains_bytes(s: Seq<u8>, pattern: Seq<u8>) -> bool {
    exists|i: int| 0 <= i && i + pattern.len() <= s.len() && #[trigger] s.subrange(i, i + pattern.len()) == pattern
}

/// A pattern occurs in every byte string that holds it somewhere, and in none shorter than it.
pub proof fn lemma_contains_bytes(a: Seq<u8>, p: Seq<u8>, b: Seq<u8>, s: Seq<u8>)
    ensures
        contains_bytes(a + p + b, p),
        p.len() > s.len() ==> !contains_bytes(s, p),
{
    let t = a + p + b;
    assert(t.subrange(a.len() as int, (a.len() + p.len()) as int) =~= p);
}

/// The bytes of `--type=`, the switch with which Chromium starts its sub-processes.
pub open spec fn type_switch() -> Seq<u8> {
    seq![0x2Du8, 0x2Du8, 0x74u8, 0x79u8, 0x70u8, 0x65u8, 0x3Du8]
}

fn contains_slice(s: &[u8], pattern: &[u8]) -> (r: bool)
    ensures
        r == contains_bytes(s@, pattern@),
{
    if pattern.len() > s.len() {
        assert forall|i: int| 0 <= i && i + pattern@.len() <= s@.len() implies #[trigger] s@.subrange(
            i,
            i + pattern@.len(),
        ) != pattern@ by {}
        return false;
    }
    let n = s.len();
    let last = n - pattern.len();
    let mut i: usize = 0;
    loop
        invariant
            n == s@.len(),
            pattern@.len() <= s@.len(),
            last == s@.len() - pattern@.len(),
            i <= last,
            forall|k: int| 0 <= k < i ==> #[trigger] s@.subrange(k, k + pattern@.len()) != pattern@,
        decreases last - i,
    {
        let mut j: usize = 0;
        let mut same = true;
        while j < pattern.len()
            invariant
                n == s@.len(),
                pattern@.len() <= s@.len(),
                i <= last,
                last == s@.len() - pattern@.len(),
                j <= pattern@.len(),
                same == (forall|m: int| 0 <= m < j ==> s@[i + m] == pattern@[m]),
            decreases pattern@.len() - j,
        {
            if s[i + j] != pattern[j] {
                same = false;
            }
            j = j + 1;
        }
        if same {
            assert(s@.subrange(i as int, i + pattern@.len()) =~= pattern@);
            return true;
        }
        let ghost m = choose|m: int| 0 <= m < pattern@.len() && s@[i + m] != pattern@[m];
        assert(s@.subrange(i as int, i + pattern@.len())[m] != pattern@[m]);
        if i == last {
            assert forall|k: int| 0 <= k && k + pattern@.len() <= s@.len() implies #[trigger] s@.subrange(
                k,
                k + pattern@.len(),
            ) != pattern@ by {
                if k < i {
                } else {
                    assert(k == i);
                }
            }
            return false;
        }
        i = i + 1;
    }
}

/// True when one of the command line arguments holds `--type=`: the process is one of
/// Chromium's sub-processes and does nothing but run Chromium.
pub fn is_subprocess(args: &Vec<String>) -> (r: bool)
    ensures
        r == exists|j: int| 0 <= j < args@.len() && contains_bytes(
            #[trigger] vstd::utf8::encode_utf8(args@[j]@),
            type_switch(),
        ),
{
    let switch: [u8; 7] = [0x2D, 0x2D, 0x74, 0x79, 0x70, 0x65, 0x3D];
    assert(switch@ == type_switch());
    let mut i: usize = 0;
    while i < args.len()
        invariant
            i <= args@.len(),
            switch@ == type_switch(),
            forall|j: int| 0 <= j < i ==> !contains_bytes(
                #[trigger] vstd::utf8::encode_utf8(args@[j]@),
                type_switch(),
            ),
        decreases args@.len() - i,
    {
        let arg = args[i].as_str();
        let bytes = arg.as_bytes();
        if contains_slice(bytes, switch.as_slice()) {
            assert(contains_bytes(vstd::utf8::encode_utf8(args@[i as int]@), type_switch()));
            return true;
        }
        i = i + 1;
    }
    false
}

/// What a base relocation of the game's image does to the 32-bit word it names.
/// Type 0 (`IMAGE_REL_BASED_ABSOLUTE`) is padding and leaves the word alone (`None`); type 3
/// (`IMAGE_REL_BASED_HIGHLOW`) adds the distance between where the image was mapped (`base`)
/// and where it expected to be (`image_base`). Other types are not handled.
pub fn apply_relocation(type_of: u8, word: i32, base: i32, image_base: i32) -> (r: Option<i32>)
    requires
        type_of == 0 || type_of == 3,
        type_of == 3 ==> i32::MIN <= base - image_base <= i32::MAX,
        type_of == 3 ==> i32::MIN <= word + (base - image_base) <= i32::MAX,
    ensures
        type_of == 0 ==> r is None,
        type_of == 3 ==> r == Some((word + (base - image_base)) as i32),
{
    if type_of == 0 {
        None
    } else {
        let delta: i32 = base - image_base;
        Some(word + delta)
    }
}

} // verus!
