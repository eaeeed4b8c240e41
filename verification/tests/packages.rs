use modu::packages;

#[test]
fn base64_get_time_package() {
    let object = packages::base64::get_object();

    assert_eq!(object.len(), 2);
}

#[test]
fn crypto_get_time_package() {
    let object = packages::crypto::get_object();

    assert_eq!(object.len(), 9);
}

#[test]
fn encoding_get_time_package() {
    let object = packages::encoding::get_object();

    assert_eq!(object.len(), 4);
}

#[test]
fn ffi_get_object_test() {
    let object = packages::ffi::get_object();

    assert_eq!(object.len(), 1);
}

#[test]
fn http_get_object_test() {
    let object = packages::http::get_object();

    assert_eq!(object.len(), 2);
}

#[test]
fn time_get_time_package() {
    let time = packages::time::get_object();
    assert_eq!(time.len(), 8);
    assert_eq!(time.contains_key("now"), true);
}
