use sconcat::CAT;

#[test]
fn it_works() {
    let cat = CAT + "Hello, " + String::from("world");
    assert_eq!(cat.to_string(), "Hello, world");
    assert_eq!(cat.try_into_string().unwrap(), "Hello, world");

    let mut s = String::new();
    s.reserve(20);
    let ptr = s.as_ptr();
    let cat = CAT + "12345" + "67890" + '1' + String::from("2345") + "67890";
    cat.try_append_to(&mut s).unwrap();
    assert_eq!(s, "12345678901234567890");
    assert_eq!(s.as_ptr(), ptr);
}

#[test]
fn formatting() {
    let cat0 = CAT;
    assert_eq!(cat0.to_string(), "");
    assert_eq!(cat0.debug_string().unwrap(), "\"\"");
    let cat1 = cat0 + "Hello, ";
    assert_eq!(cat1.to_string(), "Hello, ");
    assert_eq!(cat1.debug_string().unwrap(), "\"Hello, \"");
    let cat2 = cat1 + "world! ";
    assert_eq!(cat2.to_string(), "Hello, world! ");
    assert_eq!(cat2.debug_string().unwrap(), "\"Hello, \" + \"world! \"");
    let cat3 = cat2 + '☺';
    assert_eq!(cat3.to_string(), "Hello, world! ☺");
    assert_eq!(cat3.debug_string().unwrap(), "\"Hello, \" + \"world! \" + '☺'");
}

#[test]
fn readme_example_works() {
    let cat1 = CAT + "Hello, " + "world! " + '☺';
    let s1 = cat1.try_into_string().unwrap();
    assert_eq!(s1, "Hello, world! ☺");

    let mut s2 = String::from("Hello");
    (CAT + ',' + " world" + String::from("! ") + '☺')
        .try_append_to(&mut s2)
        .unwrap();
    assert_eq!(s2, "Hello, world! ☺");

    let mut buf = String::from("Hello, ");
    // 7 bytes for "world! " and 3 bytes for '☺'
    buf.reserve(10);
    let ptr = buf.as_ptr();
    // buf is large enough, so no reallocations take place
    let cat3 = CAT + buf + "world! " + '☺';
    let s3 = cat3.try_into_string().unwrap();
    assert_eq!(s3, "Hello, world! ☺");
    assert_eq!(s3.as_ptr(), ptr);
}
