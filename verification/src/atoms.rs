//! The atoms that name selections, targets and properties.
use vstd::prelude::*;

verus! {

/// The atoms of the clipboard protocol, as the X server interned them.
#[allow(non_snake_case)]
#[derive(Debug, Clone, Copy, PartialEq, Eq, Structural)]
pub struct Atoms {
    pub CLIPBOARD: u32,
    pub CLIPBOARD_MANAGER: u32,
    pub SAVE_TARGETS: u32,
    pub TARGETS: u32,
    pub ATOM: u32,
    pub INCR: u32,
    pub UTF8_STRING: u32,
    pub UTF8_MIME_0: u32,
    pub UTF8_MIME_1: u32,
    /// Text in ISO Latin-1 encoding.
    pub STRING: u32,
    /// Text in unknown encoding.
    pub TEXT: u32,
    pub TEXT_MIME_UNKNOWN: u32,
    pub PNG_MIME: u32,
    /// The property of our window into which the clipboard owner writes the
    /// data that we requested.
    pub ARBOARD_CLIPBOARD: u32,
}

/// The names that the atoms are interned under, in the order of the fields of
/// [`Atoms`].
pub open spec fn atom_name_list() -> Seq<Seq<char>> {
    seq![
        "CLIPBOARD"@,
        "CLIPBOARD_MANAGER"@,
        "SAVE_TARGETS"@,
        "TARGETS"@,
        "ATOM"@,
        "INCR"@,
        "UTF8_STRING"@,
        "text/plain;charset=utf-8"@,
        "text/plain;charset=UTF-8"@,
        "STRING"@,
        "TEXT"@,
        "text/plain"@,
        "image/png"@,
        "ARBOARD_CLIPBOARD"@,
    ]
}

impl Atoms {
    /// The atoms in the order of their names.
    pub open spec fn ids(self) -> Seq<u32> {
        seq![
            self.CLIPBOARD,
            self.CLIPBOARD_MANAGER,
            self.SAVE_TARGETS,
            self.TARGETS,
            self.ATOM,
            self.INCR,
            self.UTF8_STRING,
            self.UTF8_MIME_0,
            self.UTF8_MIME_1,
            self.STRING,
            self.TEXT,
            self.TEXT_MIME_UNKNOWN,
            self.PNG_MIME,
            self.ARBOARD_CLIPBOARD,
        ]
    }

    /// The atoms whose ids, in the order of their names, are these.
    pub open spec fn of_ids(ids: Seq<u32>) -> Atoms {
        Atoms {
            CLIPBOARD: ids[0],
            CLIPBOARD_MANAGER: ids[1],
            SAVE_TARGETS: ids[2],
            TARGETS: ids[3],
            ATOM: ids[4],
            INCR: ids[5],
            UTF8_STRING: ids[6],
            UTF8_MIME_0: ids[7],
            UTF8_MIME_1: ids[8],
            STRING: ids[9],
            TEXT: ids[10],
            TEXT_MIME_UNKNOWN: ids[11],
            PNG_MIME: ids[12],
            ARBOARD_CLIPBOARD: ids[13],
        }
    }

    /// Whether different names have different atoms, as the X server sees to.
    pub open spec fn distinct(self) -> bool {
        self.ids().no_duplicates()
    }

    /// The names to intern, one for each atom.
    pub fn names() -> (names: Vec<&'static str>)
        ensures
            names@.map_values(|name: &'static str| name@) == atom_name_list(),
    {
        let names: Vec<&'static str> = vec![
            "CLIPBOARD",
            "CLIPBOARD_MANAGER",
            "SAVE_TARGETS",
            "TARGETS",
            "ATOM",
            "INCR",
            "UTF8_STRING",
            "text/plain;charset=utf-8",
            "text/plain;charset=UTF-8",
            "STRING",
            "TEXT",
            "text/plain",
            "image/png",
            "ARBOARD_CLIPBOARD",
        ];
        names
    }

    /// The atoms that the server gave for [`Atoms::names`], taken in the same
    /// order; `None` if there is not exactly one for each name.
    pub fn from_ids(ids: &Vec<u32>) -> (atoms: Option<Atoms>)
        ensures
            atoms is Some <==> ids@.len() == atom_name_list().len(),
            atoms matches Some(atoms) ==> atoms == Atoms::of_ids(ids@) && atoms.ids() == ids@,
    {
        if ids.len() == 14 {
            Some(
                Atoms {
                    CLIPBOARD: ids[0],
                    CLIPBOARD_MANAGER: ids[1],
                    SAVE_TARGETS: ids[2],
                    TARGETS: ids[3],
                    ATOM: ids[4],
                    INCR: ids[5],
                    UTF8_STRING: ids[6],
                    UTF8_MIME_0: ids[7],
                    UTF8_MIME_1: ids[8],
                    STRING: ids[9],
                    TEXT: ids[10],
                    TEXT_MIME_UNKNOWN: ids[11],
                    PNG_MIME: ids[12],
                    ARBOARD_CLIPBOARD: ids[13],
                },
            )
        } else {
            None
        }
    }
}

} // verus!
