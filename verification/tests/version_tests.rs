use gphoto::libgphoto2_version;

#[test]
fn version_query_yields_five_nonempty_strings() {
    let table = vec![
        String::from("2.5.7"),
        String::from("all camlibs"),
        String::from("clang"),
        String::from("ltdl"),
        String::from("no EXIF"),
    ];
    let v = libgphoto2_version(table);
    assert_eq!(v.version(), "2.5.7");
    assert_eq!(v.camlibs(), "all camlibs");
    assert_eq!(v.compiler(), "clang");
    assert_eq!(v.ltdl(), "ltdl");
    assert_eq!(v.exif(), "no EXIF");
    for s in [v.version(), v.camlibs(), v.compiler(), v.ltdl(), v.exif()] {
        assert!(!s.is_empty());
    }
}

#[test]
fn version_query_reads_only_the_first_five_entries() {
    let table = vec![
        String::from("2.4.16"),
        String::from("standard camlibs"),
        String::from("gcc"),
        String::from("no ltdl"),
        String::from("EXIF"),
        String::from("surplus entry"),
        String::from("another surplus entry"),
    ];
    let v = libgphoto2_version(table);
    assert_eq!(v.version(), "2.4.16");
    assert_eq!(v.exif(), "EXIF");
}
