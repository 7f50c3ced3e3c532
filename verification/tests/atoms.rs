use smol_clip::atoms::Atoms;
use smol_clip::context::atom_name;
use smol_clip::error::Error;

#[test]
fn names_are_looked_up_in_order() {
    assert_eq!(
        Atoms::names(),
        vec![
            "CLIPBOARD",
            "CLIPBOARD_MANAGER",
            "SAVE_TARGETS",
            "TARGETS",
            "ATOM",
            "INCR",
            "UTF8_STRING",
            "text/plain;charset=utf-8",
            "text/plain;charset=UTF-8",
            "STRING",
            "TEXT",
            "text/plain",
            "image/png",
            "ARBOARD_CLIPBOARD",
        ]
    );
}

#[test]
fn no_name_is_looked_up_twice() {
    let names = Atoms::names();
    for i in 0..names.len() {
        for j in 0..i {
            assert_ne!(names[i], names[j]);
        }
    }
}

#[test]
fn ids_go_to_the_fields_in_order() {
    let ids: Vec<u32> = (1..15).collect();
    assert_eq!(
        Atoms::from_ids(&ids),
        Some(Atoms {
            CLIPBOARD: 1,
            CLIPBOARD_MANAGER: 2,
            SAVE_TARGETS: 3,
            TARGETS: 4,
            ATOM: 5,
            INCR: 6,
            UTF8_STRING: 7,
            UTF8_MIME_0: 8,
            UTF8_MIME_1: 9,
            STRING: 10,
            TEXT: 11,
            TEXT_MIME_UNKNOWN: 12,
            PNG_MIME: 13,
            ARBOARD_CLIPBOARD: 14,
        })
    );
}

#[test]
fn another_number_of_ids_is_no_set_of_atoms() {
    let too_few: Vec<u32> = (1..14).collect();
    let too_many: Vec<u32> = (1..16).collect();
    assert_eq!(Atoms::from_ids(&too_few), None);
    assert_eq!(Atoms::from_ids(&too_many), None);
    assert_eq!(Atoms::from_ids(&vec![]), None);
}

#[test]
fn atom_names_are_utf8() {
    assert_eq!(atom_name(Ok(b"UTF8_STRING".to_vec())), Ok("UTF8_STRING".to_string()));
    let expected = String::from_utf8(vec![b'a', 0xff]).unwrap_err().to_string();
    assert_eq!(
        atom_name(Ok(vec![b'a', 0xff])),
        Err(Error::Unknown { description: expected })
    );
}

#[test]
fn a_failed_name_lookup_is_described() {
    assert_eq!(
        atom_name(Err("BadAtom".to_string())),
        Err(Error::Unknown { description: "BadAtom".to_string() })
    );
}
