use std::cell::RefCell;
use std::io::ErrorKind;
use std::path::PathBuf;

use playing_content::content::{
    read_bundle_entry, read_direct_file, readable_name, Bundle, BundleInformation, ContentError,
    PlayingContent,
};
use playing_content::locator::decode_path_segments;
use url::Url;

type Source = fn(String) -> std::io::Result<Vec<u8>>;

fn url(s: &str) -> Url {
    Url::parse(s).unwrap()
}

fn demo_information() -> BundleInformation {
    BundleInformation {
        url: url("file:///app/main.swf"),
        name: "Demo".to_string(),
    }
}

fn bundle_with<S: Fn(String) -> std::io::Result<Vec<u8>>>(source: S) -> PlayingContent<S> {
    PlayingContent::Bundle(url("file:///app/main.swf"), Bundle::new(demo_information(), source))
}

fn direct(s: &str) -> PlayingContent<Source> {
    PlayingContent::DirectFile(url(s))
}

fn no_file(_: PathBuf) -> std::io::Result<Vec<u8>> {
    panic!("the opener must not be called")
}

fn no_entry(_: String) -> std::io::Result<Vec<u8>> {
    panic!("the content source must not be called")
}

fn demo_source(path: String) -> std::io::Result<Vec<u8>> {
    if path == "/assets/logo.png" {
        Ok(vec![1, 2, 3])
    } else {
        Err(ErrorKind::NotFound.into())
    }
}

#[test]
fn direct_file_returns_opened_bytes() {
    let content = direct("file:///tmp/x.swf");
    let seen = RefCell::new(None);
    let r = content.get_local_file(&url("file:///tmp/x.swf"), |p: PathBuf| {
        *seen.borrow_mut() = Some(p);
        Ok(vec![9, 8, 7])
    });
    assert_eq!(r.unwrap(), vec![9, 8, 7]);
    assert_eq!(seen.into_inner(), Some(PathBuf::from("/tmp/x.swf")));
}

#[test]
fn direct_file_decodes_its_path() {
    let content = direct("file:///tmp/x.swf");
    let seen = RefCell::new(None);
    let r = content.get_local_file(&url("file:///tmp/my%20movie.swf"), |p: PathBuf| {
        *seen.borrow_mut() = Some(p);
        Ok(vec![])
    });
    assert_eq!(r.unwrap(), Vec::<u8>::new());
    assert_eq!(seen.into_inner(), Some(PathBuf::from("/tmp/my movie.swf")));
}

#[test]
fn direct_file_refuses_other_schemes() {
    let content = direct("file:///tmp/x.swf");
    for target in ["https://example.com/x.swf", "http://localhost/x.swf", "data:text/plain,hi"] {
        let r = content.get_local_file(&url(target), no_file);
        assert!(matches!(r, Err(ContentError::UnsupportedLocator)), "{}", target);
    }
}

#[test]
fn direct_file_refuses_remote_host() {
    let content = direct("file:///tmp/x.swf");
    let r = content.get_local_file(&url("file://server/share/x.swf"), no_file);
    assert!(matches!(r, Err(ContentError::UnsupportedLocator)));
}

#[test]
fn direct_file_passes_on_permission_denied() {
    let content = direct("file:///tmp/x.swf");
    let r = content.get_local_file(&url("file:///tmp/x.swf"), |p: PathBuf| {
        if p == PathBuf::from("/tmp/x.swf") {
            Err(std::io::Error::new(ErrorKind::PermissionDenied, "permission denied"))
        } else {
            Ok(vec![0])
        }
    });
    match r {
        Err(ContentError::Io(e)) => {
            assert_eq!(e.kind(), ErrorKind::PermissionDenied);
            assert_eq!(e.to_string(), "permission denied");
        }
        other => panic!("unexpected outcome {:?}", other),
    }
}

#[test]
fn bundle_refuses_other_schemes_without_reading() {
    let content = bundle_with(no_entry);
    for target in ["https://example.com/assets/logo.png", "data:text/plain,hi"] {
        let r = content.get_local_file(&url(target), no_file);
        assert!(matches!(r, Err(ContentError::NotFound)), "{}", target);
    }
}

#[test]
fn bundle_path_decodes_each_segment() {
    let seen = RefCell::new(None);
    let content = bundle_with(|p: String| {
        *seen.borrow_mut() = Some(p);
        Ok(vec![5])
    });
    let r = content.get_local_file(&url("file:///a/b%20c"), no_file);
    assert_eq!(r.unwrap(), vec![5]);
    assert_eq!(seen.borrow().clone(), Some("/a/b c".to_string()));
}

#[test]
fn bundle_path_keeps_encoded_separator_in_segment() {
    let seen = RefCell::new(None);
    let content = bundle_with(|p: String| {
        *seen.borrow_mut() = Some(p);
        Ok(vec![])
    });
    let r = content.get_local_file(&url("file:///a%2Fb/c"), no_file);
    assert!(r.is_ok());
    assert_eq!(seen.borrow().clone(), Some("/a/b/c".to_string()));
}

#[test]
fn bundle_root_path() {
    let seen = RefCell::new(None);
    let content = bundle_with(|p: String| {
        *seen.borrow_mut() = Some(p);
        Ok(vec![4])
    });
    let r = content.get_local_file(&url("file:///"), no_file);
    assert_eq!(r.unwrap(), vec![4]);
    assert_eq!(seen.borrow().clone(), Some("/".to_string()));
}

#[test]
fn bundle_invalid_encoding() {
    let content = bundle_with(no_entry);
    let r = content.get_local_file(&url("file:///a/%FF/b"), no_file);
    match r {
        Err(ContentError::InvalidEncoding(m)) => assert!(!m.is_empty()),
        other => panic!("unexpected outcome {:?}", other),
    }
}

#[test]
fn bundle_end_to_end() {
    let content = bundle_with(demo_source);
    let r = content.get_local_file(&url("file:///assets/logo.png"), no_file);
    assert_eq!(r.unwrap(), vec![1, 2, 3]);
    assert_eq!(content.name(), "Demo");
}

#[test]
fn bundle_missing_entry_passes_on_not_found() {
    let content = bundle_with(demo_source);
    let r = content.get_local_file(&url("file:///assets/other.png"), no_file);
    match r {
        Err(ContentError::Io(e)) => assert_eq!(e.kind(), ErrorKind::NotFound),
        other => panic!("unexpected outcome {:?}", other),
    }
}

#[test]
fn reading_twice_gives_the_same_bytes() {
    let content = bundle_with(demo_source);
    let target = url("file:///assets/logo.png");
    let first = content.get_local_file(&target, no_file).unwrap();
    let second = content.get_local_file(&target, no_file).unwrap();
    assert_eq!(first, second);
    let loose = direct("file:///tmp/x.swf");
    let opener = |_: PathBuf| Ok(vec![3, 1]);
    let a = loose.get_local_file(&url("file:///tmp/x.swf"), opener).unwrap();
    let b = loose.get_local_file(&url("file:///tmp/x.swf"), opener).unwrap();
    assert_eq!(a, b);
}

#[test]
fn initial_url_of_bundle_is_the_reported_one() {
    let content = PlayingContent::Bundle(url("file:///app/"), Bundle::new(demo_information(), no_entry));
    assert_eq!(content.initial_swf_url().as_str(), "file:///app/main.swf");
}

#[test]
fn initial_url_of_direct_file() {
    let content = direct("file:///tmp/x.swf");
    assert_eq!(content.initial_swf_url().as_str(), "file:///tmp/x.swf");
}

#[test]
fn name_of_direct_file() {
    assert_eq!(direct("file:///tmp/my%20movie.swf").name(), "my movie.swf");
    assert_eq!(direct("data:text/plain,hi").name(), "data:text/plain,hi");
}

#[test]
fn readable_name_falls_back() {
    assert_eq!(readable_name("x".to_string(), None), "x");
    assert_eq!(readable_name("x".to_string(), Some(vec![])), "x");
    assert_eq!(readable_name("x".to_string(), Some(vec!["a".to_string(), "%FF".to_string()])), "%FF");
}

#[test]
fn decode_segments_directly() {
    assert_eq!(decode_path_segments(&vec![]).unwrap(), "");
    let segs = vec!["a".to_string(), "b%20c".to_string(), "".to_string()];
    assert_eq!(decode_path_segments(&segs).unwrap(), "/a/b c/");
    assert!(decode_path_segments(&vec!["%C3".to_string()]).is_err());
}

#[test]
fn plain_reads_by_scheme() {
    let file = "file".to_string();
    let http = "http".to_string();
    assert!(matches!(read_direct_file(&http, Some(PathBuf::from("/x")), no_file), Err(ContentError::UnsupportedLocator)));
    assert!(matches!(read_direct_file(&file, None, no_file), Err(ContentError::UnsupportedLocator)));
    assert_eq!(read_direct_file(&file, Some(PathBuf::from("/x")), |_: PathBuf| Ok(vec![2])).unwrap(), vec![2]);
    let refusing = Bundle::new(demo_information(), no_entry);
    assert!(matches!(read_bundle_entry(&http, None, &refusing), Err(ContentError::NotFound)));
    let seen = RefCell::new(None);
    let recording = Bundle::new(demo_information(), |p: String| {
        *seen.borrow_mut() = Some(p);
        Ok(vec![])
    });
    let r = read_bundle_entry(&file, None, &recording);
    assert!(r.is_ok());
    assert_eq!(seen.borrow().clone(), Some(String::new()));
}
