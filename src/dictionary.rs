//! Extraction of the data dictionary's rows from the events of an XML reader
//! over the standard's table of data elements.
use vstd::prelude::*;

verus! {

/// One row of the dictionary table: tag, name, keyword, VR, VM and notes,
/// each as the text of its cell (`None` where the cell had no text).
#[derive(Debug, Clone, PartialEq, Eq)]
pub struct Entry {
    pub tag: String,
    pub name: Option<String>,
    pub alias: Option<String>,
    pub vr: Option<String>,
    pub vm: Option<String>,
    pub obs: Option<String>,
}

/// Where the reader stands in the document.
#[derive(Debug, Clone, Copy, PartialEq, Eq, Structural)]
pub enum XmlReadingState {
    Off,
    InTableHead,
    InTable,
    InCellTag,
    InCellName,
    InCellKeyword,
    InCellVR,
    InCellVM,
    InCellObs,
    InCellUnknown,
}

/// An event of the XML reader, as the scanner needs it.
#[derive(Debug, Clone, PartialEq, Eq)]
pub enum XmlEvent {
    /// An opening tag: its local name and its `xml:id` attribute, if any.
    Start { local_name: String, id: Option<String> },
    /// A closing tag and its local name.
    End { local_name: String },
    /// Text, already unescaped and decoded.
    Text(String),
    /// The end of the document.
    Eof,
}

/// What the scanner makes of one event.
#[derive(Debug, Clone, PartialEq, Eq)]
pub enum ScanStep {
    /// Nothing to hand out; feed the next event.
    Continue,
    /// A completed row.
    Row(Entry),
    /// The table, or the document, has ended.
    Finished,
}

/// The zero width space, which the standard's cells hold here and there.
pub const ZERO_WIDTH_SPACE: char = '\u{200b}';

/// The text with every zero width space removed.
pub open spec fn strip_zwsp(s: Seq<char>) -> Seq<char> {
    s.filter(|c: char| c != ZERO_WIDTH_SPACE)
}

/// Relies on `str::replace`: replacing every match of a one-character
/// pattern with the empty string removes that character, keeping the others
/// in order.
#[verifier::external_body]
fn remove_zero_width_spaces(s: &str) -> (r: String)
    ensures
        r@ == strip_zwsp(s@),
{
    s.replace("\u{200b}", "")
}

/// The cell that follows the given one in a row; past the sixth cell all
/// paragraphs are of unknown cells.
pub open spec fn next_cell(s: XmlReadingState) -> XmlReadingState {
    match s {
        XmlReadingState::InTable => XmlReadingState::InCellTag,
        XmlReadingState::InCellTag => XmlReadingState::InCellName,
        XmlReadingState::InCellName => XmlReadingState::InCellKeyword,
        XmlReadingState::InCellKeyword => XmlReadingState::InCellVR,
        XmlReadingState::InCellVR => XmlReadingState::InCellVM,
        XmlReadingState::InCellVM => XmlReadingState::InCellObs,
        XmlReadingState::InCellObs => XmlReadingState::InCellUnknown,
        other => other,
    }
}

/// The state after an opening tag.
pub open spec fn state_after_start(s: XmlReadingState, name: Seq<char>, id: Option<Seq<char>>) -> XmlReadingState {
    match s {
        XmlReadingState::Off => if name == "table"@ && id == Some("table_6-1"@) {
            XmlReadingState::InTableHead
        } else {
            s
        },
        XmlReadingState::InTableHead => if name == "tbody"@ {
            XmlReadingState::InTable
        } else {
            s
        },
        XmlReadingState::InCellUnknown => s,
        _ => if name == "para"@ {
            next_cell(s)
        } else {
            s
        },
    }
}

pub open spec fn opt_view(o: Option<String>) -> Option<Seq<char>> {
    match o {
        Some(s) => Some(s@),
        None => None,
    }
}

/// Scans the events of a document for the rows of the dictionary table.
#[derive(Debug)]
pub struct EntryScanner {
    pub state: XmlReadingState,
    pub tag: Option<String>,
    pub name: Option<String>,
    pub keyword: Option<String>,
    pub vr: Option<String>,
    pub vm: Option<String>,
    pub obs: Option<String>,
}

impl EntryScanner {
    /// A scanner before the table, with no cell captured.
    pub fn new() -> (r: EntryScanner)
        ensures
            r.state == XmlReadingState::Off,
            r.tag is None && r.name is None && r.keyword is None,
            r.vr is None && r.vm is None && r.obs is None,
    {
        EntryScanner {
            state: XmlReadingState::Off,
            tag: None,
            name: None,
            keyword: None,
            vr: None,
            vm: None,
            obs: None,
        }
    }

    /// The scanner's state; the cell slots are unchanged.
    pub open spec fn same_slots(self, other: EntryScanner) -> bool {
        &&& self.tag == other.tag
        &&& self.name == other.name
        &&& self.keyword == other.keyword
        &&& self.vr == other.vr
        &&& self.vm == other.vm
        &&& self.obs == other.obs
    }

    /// Takes one event: an opening tag moves through the table and the cells
    /// of a row; text is kept, without zero width spaces, in the slot of the
    /// current cell; the end of a row with a captured tag hands the row out
    /// and empties the slots; the end of the table body, or of the document,
    /// finishes.
    pub fn feed(&mut self, event: XmlEvent) -> (r: ScanStep)
        ensures
            match event {
                XmlEvent::Start { local_name, id } => {
                    &&& r == ScanStep::Continue
                    &&& final(self).state == state_after_start(old(self).state, local_name@, opt_view(id))
                    &&& final(self).same_slots(*old(self))
                },
                XmlEvent::End { local_name } => if old(self).state != XmlReadingState::Off
                    && local_name@ == "tr"@ && old(self).tag is Some {
                    &&& r == ScanStep::Row(Entry {
                        tag: old(self).tag->0,
                        name: old(self).name,
                        alias: old(self).keyword,
                        vr: old(self).vr,
                        vm: old(self).vm,
                        obs: old(self).obs,
                    })
                    &&& final(self).state == XmlReadingState::InTable
                    &&& final(self).tag is None && final(self).name is None
                    &&& final(self).keyword is None && final(self).vr is None
                    &&& final(self).vm is None && final(self).obs is None
                } else if local_name@ == "tbody"@ {
                    &&& r == ScanStep::Finished
                    &&& *final(self) == *old(self)
                } else {
                    &&& r == ScanStep::Continue
                    &&& *final(self) == *old(self)
                },
                XmlEvent::Text(text) => {
                    let t = Some(strip_zwsp(text@));
                    let o = *old(self);
                    let f = *final(self);
                    &&& r == ScanStep::Continue
                    &&& f.state == o.state
                    &&& opt_view(f.tag) == if o.state == XmlReadingState::InCellTag { t } else { opt_view(o.tag) }
                    &&& opt_view(f.name) == if o.state == XmlReadingState::InCellName { t } else { opt_view(o.name) }
                    &&& opt_view(f.keyword) == if o.state == XmlReadingState::InCellKeyword { t } else { opt_view(o.keyword) }
                    &&& opt_view(f.vr) == if o.state == XmlReadingState::InCellVR { t } else { opt_view(o.vr) }
                    &&& opt_view(f.vm) == if o.state == XmlReadingState::InCellVM { t } else { opt_view(o.vm) }
                    &&& opt_view(f.obs) == if o.state == XmlReadingState::InCellObs { t } else { opt_view(o.obs) }
                },
                XmlEvent::Eof => {
                    &&& r == ScanStep::Finished
                    &&& *final(self) == *old(self)
                },
            },
    {
        match event {
            XmlEvent::Start { local_name, id } => {
                let is_para = local_name == String::from_str("para");
                proof {
                    reveal_strlit("para");
                    reveal_strlit("table");
                    reveal_strlit("tbody");
                    reveal_strlit("table_6-1");
                }
                match self.state {
                    XmlReadingState::Off => {
                        if local_name == String::from_str("table") {
                            match id {
                                Some(v) => {
                                    if v == String::from_str("table_6-1") {
                                        self.state = XmlReadingState::InTableHead;
                                    }
                                },
                                None => {},
                            }
                        }
                    },
                    XmlReadingState::InTableHead => {
                        if local_name == String::from_str("tbody") {
                            self.state = XmlReadingState::InTable;
                        }
                    },
                    XmlReadingState::InTable => if is_para {
                        self.state = XmlReadingState::InCellTag;
                    },
                    XmlReadingState::InCellTag => if is_para {
                        self.state = XmlReadingState::InCellName;
                    },
                    XmlReadingState::InCellName => if is_para {
                        self.state = XmlReadingState::InCellKeyword;
                    },
                    XmlReadingState::InCellKeyword => if is_para {
                        self.state = XmlReadingState::InCellVR;
                    },
                    XmlReadingState::InCellVR => if is_para {
                        self.state = XmlReadingState::InCellVM;
                    },
                    XmlReadingState::InCellVM => if is_para {
                        self.state = XmlReadingState::InCellObs;
                    },
                    XmlReadingState::InCellObs => if is_para {
                        self.state = XmlReadingState::InCellUnknown;
                    },
                    XmlReadingState::InCellUnknown => {},
                }
                ScanStep::Continue
            },
            XmlEvent::End { local_name } => {
                proof {
                    reveal_strlit("tr");
                    reveal_strlit("tbody");
                }
                if self.state != XmlReadingState::Off && local_name == String::from_str("tr")
                    && self.tag.is_some() {
                    let tag = self.tag.take().unwrap();
                    let out = Entry {
                        tag,
                        name: self.name.take(),
                        alias: self.keyword.take(),
                        vr: self.vr.take(),
                        vm: self.vm.take(),
                        obs: self.obs.take(),
                    };
                    self.state = XmlReadingState::InTable;
                    ScanStep::Row(out)
                } else if local_name == String::from_str("tbody") {
                    ScanStep::Finished
                } else {
                    ScanStep::Continue
                }
            },
            XmlEvent::Text(text) => {
                match self.state {
                    XmlReadingState::InCellTag => {
                        self.tag = Some(remove_zero_width_spaces(text.as_str()));
                    },
                    XmlReadingState::InCellName => {
                        self.name = Some(remove_zero_width_spaces(text.as_str()));
                    },
                    XmlReadingState::InCellKeyword => {
                        self.keyword = Some(remove_zero_width_spaces(text.as_str()));
                    },
                    XmlReadingState::InCellVR => {
                        self.vr = Some(remove_zero_width_spaces(text.as_str()));
                    },
                    XmlReadingState::InCellVM => {
                        self.vm = Some(remove_zero_width_spaces(text.as_str()));
                    },
                    XmlReadingState::InCellObs => {
                        self.obs = Some(remove_zero_width_spaces(text.as_str()));
                    },
                    _ => {},
                }
                ScanStep::Continue
            },
            XmlEvent::Eof => ScanStep::Finished,
        }
    }
}

} // verus!
