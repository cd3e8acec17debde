use dreamloader::hooks::{
    apply_relocation, get_module_file_name_w_hook, is_chromium_window_class, is_subprocess, Clsid,
};

fn class_buffer(name: &[u8]) -> [u8; 128] {
    let mut buf = [0u8; 128];
    buf[..name.len()].copy_from_slice(name);
    buf
}

#[test]
fn module_name_for_other_modules_is_left_to_windows() {
    let mut buf = [7u8; 32];
    assert_eq!(get_module_file_name_w_hook(1, 2, &mut buf), None);
    assert_eq!(buf, [7u8; 32]);
}

#[test]
fn module_name_with_small_buffer() {
    let mut buf = [7u8; 15];
    assert_eq!(get_module_file_name_w_hook(2, 2, &mut buf), Some(0));
    assert_eq!(buf, [7u8; 15]);
}

#[test]
fn module_name_is_dreamseeker() {
    let mut buf = [7u8; 20];
    assert_eq!(get_module_file_name_w_hook(2, 2, &mut buf), Some(15));
    assert_eq!(&buf[..16], b"dreamseeker.exe\0");
    assert_eq!(&buf[16..], &[7u8; 4]);
    let mut exact = [0u8; 16];
    assert_eq!(get_module_file_name_w_hook(9, 9, &mut exact), Some(15));
    assert_eq!(&exact, b"dreamseeker.exe\0");
}

#[test]
fn chromium_window_classes() {
    assert!(is_chromium_window_class(&class_buffer(b"Chrome_WidgetWin_0")));
    assert!(is_chromium_window_class(&class_buffer(b"Chrome_RenderWidgetHostHWND")));
    assert!(is_chromium_window_class(&class_buffer(b"CefBrowserWindow")));
    assert!(!is_chromium_window_class(&class_buffer(b"Afx:00400000:8")));
    assert!(!is_chromium_window_class(&class_buffer(b"Chrome")));
    assert!(!is_chromium_window_class(&class_buffer(b"")));
    assert!(!is_chromium_window_class(&class_buffer(b"Ce")));
    // Bytes after the terminator do not count.
    assert!(!is_chromium_window_class(b"Ce\0f rest"));
    // A class name that is not UTF-8 is left to MFC.
    assert!(!is_chromium_window_class(&class_buffer(b"Cef\xff")));
    assert!(!is_chromium_window_class(&class_buffer(b"Chrome_\xc3\x28")));
    assert!(is_chromium_window_class(&class_buffer("Cef\u{e9}".as_bytes())));
}

#[test]
fn web_browser_class_id() {
    let web = Clsid {
        data1: 0x8856F961,
        data2: 0x340A,
        data3: 0x11D0,
        data4: 0x6BA9,
        data5: [0x00, 0xC0, 0x4F, 0xD7, 0x05, 0xA2],
    };
    assert!(web.is_web_browser());
    let mut other = web;
    other.data5[5] = 0xA3;
    assert!(!other.is_web_browser());
    let mut other = web;
    other.data1 = 0;
    assert!(!other.is_web_browser());
}

#[test]
fn subprocess_detection() {
    let main_args = vec!["dreamloader.exe".to_string(), "byond://server".to_string()];
    assert!(!is_subprocess(&main_args));
    let sub = vec![
        "dreamloader.exe".to_string(),
        "--type=renderer".to_string(),
        "--lang=en".to_string(),
    ];
    assert!(is_subprocess(&sub));
    assert!(is_subprocess(&vec!["x--type=gpu-process".to_string()]));
    assert!(!is_subprocess(&vec!["--type".to_string(), "=".to_string()]));
    assert!(!is_subprocess(&vec![]));
}

#[test]
fn relocations() {
    assert_eq!(apply_relocation(0, 1234, 0x10000000, 0x00400000), None);
    assert_eq!(apply_relocation(3, 0x00401000, 0x10000000, 0x00400000), Some(0x10001000));
    assert_eq!(apply_relocation(3, 0x00401000, 0x00400000, 0x00400000), Some(0x00401000));
}
