//! The file manager: keeps the open project's file tree for the file
//! browser.  Walking the directory tree is the host's work; this plugin
//! decides when to ask for a fresh scan and keeps the delivered tree.

use vstd::prelude::*;

use crate::commands::CoreError;
use crate::commands::ICommand;
use crate::commands::IEncode;
use crate::commands::SpecEnvelope;
use crate::dispatch::bus_effect;
use crate::dispatch::lemma_bus_unchanged;
use crate::dispatch::quiet_step;
use crate::dispatch::Dispatcher;
use crate::dispatch::HostRequest;
use crate::dispatch::HostRequestV;
use crate::dispatch::StepV;
use crate::plugin::IPluginStateStorage;
use crate::plugin::PluginInfo;
use crate::plugin::PluginStatus;
use crate::plugins::project_manager::decode_pm_event;
use crate::plugins::project_manager::pm_event_action;
use crate::plugins::project_manager::pm_sender;
use crate::plugins::project_manager::spec_dec_pm_event;
use crate::plugins::project_manager::ProjectManagerEvent;
use crate::plugins::project_manager::ProjectManagerEventV;
use crate::value::fields_view;
use crate::value::lemma_fields_view;
use crate::value::spec_get;
use crate::value::str_eq;
use crate::value::SpecValue;
use crate::value::StructValue;

verus! {

/// Whether a file tree entry is a plain file or a folder with children.
#[derive(Debug)]
pub enum FileEntryType {
    File,
    Folder(Vec<FileEntry>),
}

/// One entry of the project's file tree.
#[derive(Debug)]
pub struct FileEntry {
    pub name: String,
    pub file_type: FileEntryType,
}

/// The mathematical model of a `FileEntryType`.
#[verifier::ext_equal]
pub ghost enum FileEntryTypeV {
    File,
    Folder(Seq<FileEntryV>),
}

/// The mathematical model of a `FileEntry`.
#[verifier::ext_equal]
pub ghost struct FileEntryV {
    pub name: Seq<char>,
    pub file_type: FileEntryTypeV,
}

impl View for FileEntry {
    type V = FileEntryV;

    open spec fn view(&self) -> FileEntryV
        decreases self, 0int, 0int,
    {
        proof {
            assert(decreases_to!(self => self.file_type));
        }
        FileEntryV { name: self.name@, file_type: self.file_type@ }
    }
}

impl View for FileEntryType {
    type V = FileEntryTypeV;

    open spec fn view(&self) -> FileEntryTypeV
        decreases self, 1int, 0int,
    {
        match self {
            FileEntryType::File => FileEntryTypeV::File,
            FileEntryType::Folder(children) => {
                proof {
                    assert(decreases_to!(self => self->Folder_0));
                    assert(decreases_to!(self->Folder_0 => children@));
                }
                FileEntryTypeV::Folder(entries_view_from(children@, 0))
            },
        }
    }
}

/// The models of `entries[i..]`, in order.
pub open spec fn entries_view_from(entries: Seq<FileEntry>, i: int) -> Seq<FileEntryV>
    decreases entries, 0int, entries.len() - i,
{
    if i < 0 || i >= entries.len() {
        Seq::empty()
    } else {
        proof {
            assert(decreases_to!(entries => entries[i]));
        }
        seq![entries[i]@] + entries_view_from(entries, i + 1)
    }
}

/// The models of a list of entries, in order.
pub open spec fn entries_view(entries: Seq<FileEntry>) -> Seq<FileEntryV> {
    entries_view_from(entries, 0)
}

proof fn lemma_entries_view_from(entries: Seq<FileEntry>, i: int)
    requires
        0 <= i <= entries.len(),
    ensures
        entries_view_from(entries, i).len() == entries.len() - i,
        forall|k: int|
            0 <= k < entries.len() - i ==> entries_view_from(entries, i)[k] == entries[i + k]@,
    decreases entries.len() - i,
{
    if i < entries.len() {
        lemma_entries_view_from(entries, i + 1);
        let s = entries_view_from(entries, i);
        let rest = entries_view_from(entries, i + 1);
        assert(s == seq![entries[i]@] + rest);
        assert forall|k: int| 0 <= k < entries.len() - i implies s[k] == entries[i + k]@ by {
            if k == 0 {
                assert(s[0] == entries[i]@);
            } else {
                assert(s[k] == rest[k - 1]);
            }
        }
    } else {
        assert(entries_view_from(entries, i).len() == 0);
    }
}

/// Encoding of one file tree entry, in the canonical field order.
pub open spec fn spec_enc_entry(e: FileEntryV) -> SpecValue
    decreases e, 0int,
{
    proof {
        assert(decreases_to!(e => e.file_type));
    }
    SpecValue::Object(
        seq![("name"@, SpecValue::Text(e.name)), ("file_type"@, spec_enc_entry_type(e.file_type))],
    )
}

/// Encoding of an entry's kind.
pub open spec fn spec_enc_entry_type(t: FileEntryTypeV) -> SpecValue
    decreases t, 1int,
{
    match t {
        FileEntryTypeV::File => SpecValue::Text("File"@),
        FileEntryTypeV::Folder(children) => {
            proof {
                assert(decreases_to!(t => t->Folder_0));
            }
            SpecValue::Object(
                seq![("Folder"@, SpecValue::List(spec_enc_entries(children, 0)))],
            )
        },
    }
}

/// Encodings of `children[i..]`, in order.
pub open spec fn spec_enc_entries(children: Seq<FileEntryV>, i: int) -> Seq<SpecValue>
    decreases children, 2int, children.len() - i,
{
    if i < 0 || i >= children.len() {
        Seq::empty()
    } else {
        proof {
            assert(decreases_to!(children => children[i]));
        }
        seq![spec_enc_entry(children[i])] + spec_enc_entries(children, i + 1)
    }
}

proof fn lemma_spec_enc_entries(children: Seq<FileEntryV>, i: int)
    requires
        0 <= i <= children.len(),
    ensures
        spec_enc_entries(children, i).len() == children.len() - i,
        forall|k: int|
            0 <= k < children.len() - i ==> spec_enc_entries(children, i)[k] == spec_enc_entry(
                children[i + k],
            ),
    decreases children.len() - i,
{
    if i < children.len() {
        lemma_spec_enc_entries(children, i + 1);
        let s = spec_enc_entries(children, i);
        let rest = spec_enc_entries(children, i + 1);
        assert(s == seq![spec_enc_entry(children[i])] + rest);
        assert forall|k: int|
            0 <= k < children.len() - i implies s[k] == spec_enc_entry(children[i + k]) by {
            if k == 0 {
                assert(s[0] == spec_enc_entry(children[i]));
            } else {
                assert(s[k] == rest[k - 1]);
            }
        }
    } else {
        assert(spec_enc_entries(children, i).len() == 0);
    }
}

/// Decoding of one file tree entry, accepting exactly the canonical form.
pub open spec fn spec_dec_entry(v: SpecValue) -> Option<FileEntryV>
    decreases v, 0int,
{
    match v {
        SpecValue::Object(fields) => {
            if fields.len() == 2 && fields[0].0 == "name"@ && fields[1].0 == "file_type"@ {
                match fields[0].1 {
                    SpecValue::Text(name) => {
                        proof {
                            assert(decreases_to!(v => v->Object_0));
                            assert(decreases_to!(fields => fields[1]));
                            assert(decreases_to!(fields[1] => fields[1].1));
                        }
                        match spec_dec_entry_type(fields[1].1) {
                            Option::Some(file_type) => Option::Some(
                                FileEntryV { name, file_type },
                            ),
                            Option::None => Option::None,
                        }
                    },
                    _ => Option::None,
                }
            } else {
                Option::None
            }
        },
        _ => Option::None,
    }
}

/// Decoding of an entry's kind.
pub open spec fn spec_dec_entry_type(v: SpecValue) -> Option<FileEntryTypeV>
    decreases v, 1int,
{
    if v == SpecValue::Text("File"@) {
        Option::Some(FileEntryTypeV::File)
    } else {
        match v {
            SpecValue::Object(fields) => {
                if fields.len() == 1 && fields[0].0 == "Folder"@ {
                    match fields[0].1 {
                        SpecValue::List(items) => {
                            proof {
                                assert(decreases_to!(v => v->Object_0));
                                assert(decreases_to!(fields => fields[0]));
                                assert(decreases_to!(fields[0] => fields[0].1));
                                assert(decreases_to!(fields[0].1 => items));
                            }
                            match spec_dec_entries(items, 0) {
                                Option::Some(children) => Option::Some(
                                    FileEntryTypeV::Folder(children),
                                ),
                                Option::None => Option::None,
                            }
                        },
                        _ => Option::None,
                    }
                } else {
                    Option::None
                }
            },
            _ => Option::None,
        }
    }
}

/// Decodings of `items[i..]`: all the children, if every one decodes.
pub open spec fn spec_dec_entries(items: Seq<SpecValue>, i: int) -> Option<Seq<FileEntryV>>
    decreases items, 2int, items.len() - i,
{
    if i < 0 || i >= items.len() {
        Option::Some(Seq::empty())
    } else {
        proof {
            assert(decreases_to!(items => items[i]));
        }
        match spec_dec_entry(items[i]) {
            Option::Some(e) => match spec_dec_entries(items, i + 1) {
                Option::Some(rest) => Option::Some(seq![e] + rest),
                Option::None => Option::None,
            },
            Option::None => Option::None,
        }
    }
}

/// If every element of `items[i..]` decodes, the decoded list is their
/// pointwise decoding; if any fails, the whole list fails.
proof fn lemma_spec_dec_entries(items: Seq<SpecValue>, i: int)
    requires
        0 <= i <= items.len(),
    ensures
        (forall|k: int| i <= k < items.len() ==> (#[trigger] spec_dec_entry(items[k])) is Some)
            ==> {
            &&& spec_dec_entries(items, i) is Some
            &&& spec_dec_entries(items, i)->Some_0.len() == items.len() - i
            &&& forall|k: int|
                0 <= k < items.len() - i ==> spec_dec_entries(items, i)->Some_0[k]
                    == spec_dec_entry(items[i + k])->Some_0
        },
        (exists|k: int| i <= k < items.len() && (#[trigger] spec_dec_entry(items[k])) is None)
            ==> spec_dec_entries(items, i) is None,
    decreases items.len() - i,
{
    if i < items.len() {
        lemma_spec_dec_entries(items, i + 1);
        if forall|k: int| i <= k < items.len() ==> (#[trigger] spec_dec_entry(items[k])) is Some {
            let s = spec_dec_entries(items, i)->Some_0;
            let rest = spec_dec_entries(items, i + 1)->Some_0;
            assert(s == seq![spec_dec_entry(items[i])->Some_0] + rest);
            assert forall|k: int|
                0 <= k < items.len() - i implies s[k] == spec_dec_entry(items[i + k])->Some_0 by {
                if k == 0 {
                    assert(s[0] == spec_dec_entry(items[i])->Some_0);
                } else {
                    assert(s[k] == rest[k - 1]);
                }
            }
        } else {
            if spec_dec_entry(items[i]) is None {
            } else {
                assert(exists|k: int|
                    i + 1 <= k < items.len() && (#[trigger] spec_dec_entry(items[k])) is None);
            }
        }
    }
}

/// Law: decoding an encoded file tree entry restores it.
pub proof fn lemma_entry_round_trip(e: FileEntryV)
    ensures
        spec_dec_entry(spec_enc_entry(e)) == Option::Some(e),
    decreases e, 2int,
{
    reveal_strlit("name");
    reveal_strlit("file_type");
    reveal_strlit("File");
    reveal_strlit("Folder");
    assert("name"@.len() == 4);
    assert("file_type"@.len() == 9);
    match e.file_type {
        FileEntryTypeV::File => {
        },
        FileEntryTypeV::Folder(children) => {
            let items = spec_enc_entries(children, 0);
            lemma_spec_enc_entries(children, 0);
            assert forall|k: int|
                0 <= k < items.len() implies (#[trigger] spec_dec_entry(items[k]))
                == Option::Some(children[k]) by {
                assert(decreases_to!(e => e.file_type));
                assert(decreases_to!(e.file_type => children));
                assert(decreases_to!(children => children[k]));
                lemma_entry_round_trip(children[k]);
                assert(items[k] == spec_enc_entry(children[k]));
            }
            lemma_spec_dec_entries(items, 0);
            assert(spec_dec_entries(items, 0)->Some_0 =~= children);
            assert(spec_enc_entry_type(e.file_type) != SpecValue::Text("File"@));
        },
    }
}

/// Encodes one file tree entry; the result models `spec_enc_entry`.
pub fn encode_entry(e: &FileEntry) -> (r: StructValue)
    ensures
        r@ == spec_enc_entry(e@),
    decreases e,
{
    let type_value = match &e.file_type {
        FileEntryType::File => StructValue::text("File"),
        FileEntryType::Folder(children) => {
            let n = children.len();
            let mut items: Vec<StructValue> = Vec::new();
            let mut i: usize = 0;
            while i < n
                invariant
                    n == children@.len(),
                    i <= n,
                    items@.len() == i,
                    forall|k: int|
                        0 <= k < i ==> #[trigger] items@[k]@ == spec_enc_entry(children@[k]@),
                    e.file_type == FileEntryType::Folder(*children),
                    e == (FileEntry { name: e.name, file_type: e.file_type }),
                decreases n - i,
            {
                proof {
                    assert(decreases_to!(e => e.file_type));
                    assert(decreases_to!(e.file_type => e.file_type->Folder_0));
                    vstd::std_specs::vec::axiom_vec_index_decreases(*children, i as int);
                }
                let encoded = encode_entry(&children[i]);
                items.push(encoded);
                i = i + 1;
            }
            let ghost gi = items@;
            let mut fields: Vec<(String, StructValue)> = Vec::new();
            fields.push(("Folder".to_owned(), StructValue::List(items)));
            let ghost gf = fields@;
            let r = StructValue::Object(fields);
            proof {
                crate::value::lemma_seq_view(gi);
                lemma_fields_view(gf);
                lemma_entries_view_from(children@, 0);
                lemma_spec_enc_entries(entries_view(children@), 0);
                assert(crate::value::seq_view(gi) =~= spec_enc_entries(
                    entries_view(children@),
                    0,
                ));
                assert(fields_view(gf) =~= spec_enc_entry_type(e.file_type@)->Object_0);
                assert(r@ == spec_enc_entry_type(e.file_type@));
            }
            r
        },
    };
    let mut fields: Vec<(String, StructValue)> = Vec::new();
    fields.push(("name".to_owned(), StructValue::Text(e.name.clone())));
    fields.push(("file_type".to_owned(), type_value));
    let ghost gf = fields@;
    let r = StructValue::Object(fields);
    proof {
        lemma_fields_view(gf);
        assert(fields_view(gf) =~= spec_enc_entry(e@)->Object_0);
        assert(r@ == spec_enc_entry(e@));
    }
    r
}

/// Decodes one file tree entry; the result models `spec_dec_entry`.
pub fn decode_entry(v: &StructValue) -> (r: Option<FileEntry>)
    ensures
        match r {
            Option::Some(e) => spec_dec_entry(v@) == Option::Some(e@),
            Option::None => spec_dec_entry(v@) is None,
        },
    decreases v, 0int,
{
    match v {
        StructValue::Object(fields) => {
            proof {
                lemma_fields_view(fields@);
            }
            if fields.len() != 2 {
                return Option::None;
            }
            if !str_eq(fields[0].0.as_str(), "name") {
                return Option::None;
            }
            if !str_eq(fields[1].0.as_str(), "file_type") {
                return Option::None;
            }
            let name = match &fields[0].1 {
                StructValue::Text(s) => s,
                _ => {
                    return Option::None;
                },
            };
            let file_type: FileEntryType = match &fields[1].1 {
                StructValue::Text(s) => {
                    if str_eq(s.as_str(), "File") {
                        FileEntryType::File
                    } else {
                        return Option::None;
                    }
                },
                StructValue::Object(tfields) => {
                    proof {
                        lemma_fields_view(tfields@);
                    }
                    if tfields.len() != 1 {
                        return Option::None;
                    }
                    if !str_eq(tfields[0].0.as_str(), "Folder") {
                        return Option::None;
                    }
                    match &tfields[0].1 {
                        StructValue::List(items) => {
                            proof {
                                assert(decreases_to!(v => v->Object_0));
                                vstd::std_specs::vec::axiom_vec_index_decreases(*fields, 1int);
                                assert(decreases_to!(fields@[1] => fields@[1].1));
                                assert(decreases_to!(fields@[1].1 => fields@[1].1->Object_0));
                                vstd::std_specs::vec::axiom_vec_index_decreases(*tfields, 0int);
                                assert(decreases_to!(tfields@[0] => tfields@[0].1));
                                assert(decreases_to!(tfields@[0].1 => tfields@[0].1->List_0));
                            }
                            match decode_entries(items) {
                                Option::Some(children) => FileEntryType::Folder(children),
                                Option::None => {
                                    return Option::None;
                                },
                            }
                        },
                        _ => {
                            return Option::None;
                        },
                    }
                },
                _ => {
                    return Option::None;
                },
            };
            Option::Some(FileEntry { name: name.clone(), file_type })
        },
        _ => Option::None,
    }
}

/// Decodes a list of file tree entries; all of them, if every one decodes.
pub fn decode_entries(items: &Vec<StructValue>) -> (r: Option<Vec<FileEntry>>)
    ensures
        match r {
            Option::Some(es) => spec_dec_entries(crate::value::seq_view(items@), 0)
                == Option::Some(entries_view(es@)),
            Option::None => spec_dec_entries(crate::value::seq_view(items@), 0) is None,
        },
    decreases items, 1int,
{
    proof {
        crate::value::lemma_seq_view(items@);
    }
    let ghost iv = crate::value::seq_view(items@);
    let n = items.len();
    let mut children: Vec<FileEntry> = Vec::new();
    let mut i: usize = 0;
    while i < n
        invariant
            n == items@.len(),
            i <= n,
            children@.len() == i,
            iv == crate::value::seq_view(items@),
            iv.len() == items@.len(),
            forall|k: int| 0 <= k < items@.len() ==> #[trigger] iv[k] == items@[k]@,
            forall|k: int|
                0 <= k < i ==> (#[trigger] spec_dec_entry(iv[k])) == Option::Some(
                    entries_view(children@)[k],
                ),
            entries_view(children@).len() == i,
        decreases n - i,
    {
        proof {
            vstd::std_specs::vec::axiom_vec_index_decreases(*items, i as int);
        }
        let child = match decode_entry(&items[i]) {
            Option::Some(c) => c,
            Option::None => {
                proof {
                    assert(spec_dec_entry(iv[i as int]) is None);
                    lemma_spec_dec_entries(iv, 0);
                }
                return Option::None;
            },
        };
        let ghost cv = child@;
        let ghost before = children@;
        children.push(child);
        proof {
            lemma_entries_view_from(before, 0);
            lemma_entries_view_from(children@, 0);
            assert forall|k: int|
                0 <= k < i + 1 implies (#[trigger] spec_dec_entry(iv[k])) == Option::Some(
                entries_view(children@)[k],
            ) by {
                if k < i {
                    assert(children@[k] == before[k]);
                    assert(entries_view(children@)[k] == before[k]@);
                    assert(entries_view(before)[k] == before[k]@);
                } else {
                    assert(children@[k]@ == cv);
                    assert(entries_view(children@)[k] == cv);
                }
            }
        }
        i = i + 1;
    }
    proof {
        lemma_spec_dec_entries(iv, 0);
        lemma_entries_view_from(children@, 0);
        assert(spec_dec_entries(iv, 0)->Some_0 =~= entries_view(children@));
    }
    Option::Some(children)
}

/// The commands understood by the file manager.
#[derive(Debug)]
pub enum FileManagerCommand {
    /// Rescan the open project's file tree.
    ReloadProjectFiles,
    OpenFile(String),
    CloseFile(String),
    RequestContextMenu(String),
}

/// The mathematical model of a `FileManagerCommand`.
#[verifier::ext_equal]
pub ghost enum FileManagerCommandV {
    ReloadProjectFiles,
    OpenFile(Seq<char>),
    CloseFile(Seq<char>),
    RequestContextMenu(Seq<char>),
}

impl View for FileManagerCommand {
    type V = FileManagerCommandV;

    open spec fn view(&self) -> FileManagerCommandV {
        match self {
            FileManagerCommand::ReloadProjectFiles => FileManagerCommandV::ReloadProjectFiles,
            FileManagerCommand::OpenFile(p) => FileManagerCommandV::OpenFile(p@),
            FileManagerCommand::CloseFile(p) => FileManagerCommandV::CloseFile(p@),
            FileManagerCommand::RequestContextMenu(p) => FileManagerCommandV::RequestContextMenu(
                p@,
            ),
        }
    }
}

/// The action under which file manager commands travel.
pub open spec fn fm_action() -> Seq<char> {
    "designer.file_manager.management"@
}

/// The action under which file manager events travel.
pub open spec fn fm_event_action() -> Seq<char> {
    "designer.file_manager.event"@
}

/// The action under which the host reports a finished file tree scan back
/// to the file manager.
pub open spec fn fm_io_action() -> Seq<char> {
    "designer.file_manager.io"@
}

/// The sender name the file manager publishes under.
pub open spec fn fm_sender() -> Seq<char> {
    "designer.file_manager"@
}

/// Encoding of a file manager command.
pub open spec fn spec_enc_fm_command(c: FileManagerCommandV) -> SpecValue {
    match c {
        FileManagerCommandV::ReloadProjectFiles => SpecValue::Text("ReloadProjectFiles"@),
        FileManagerCommandV::OpenFile(p) => SpecValue::Object(
            seq![("OpenFile"@, SpecValue::Text(p))],
        ),
        FileManagerCommandV::CloseFile(p) => SpecValue::Object(
            seq![("CloseFile"@, SpecValue::Text(p))],
        ),
        FileManagerCommandV::RequestContextMenu(p) => SpecValue::Object(
            seq![("RequestContextMenu"@, SpecValue::Text(p))],
        ),
    }
}

/// Decoding of a file manager command.
pub open spec fn spec_dec_fm_command(v: SpecValue) -> Option<FileManagerCommandV> {
    if v == SpecValue::Text("ReloadProjectFiles"@) {
        Option::Some(FileManagerCommandV::ReloadProjectFiles)
    } else {
        match spec_get(v, "OpenFile"@) {
            Option::Some(SpecValue::Text(p)) => Option::Some(FileManagerCommandV::OpenFile(p)),
            Option::Some(_) => Option::None,
            Option::None => match spec_get(v, "CloseFile"@) {
                Option::Some(SpecValue::Text(p)) => Option::Some(
                    FileManagerCommandV::CloseFile(p),
                ),
                Option::Some(_) => Option::None,
                Option::None => match spec_get(v, "RequestContextMenu"@) {
                    Option::Some(SpecValue::Text(p)) => Option::Some(
                        FileManagerCommandV::RequestContextMenu(p),
                    ),
                    _ => Option::None,
                },
            },
        }
    }
}

impl IEncode for FileManagerCommand {
    open spec fn spec_enc(&self) -> SpecValue {
        spec_enc_fm_command(self@)
    }

    fn encode(&self) -> (r: StructValue) {
        let (key, path) = match self {
            FileManagerCommand::ReloadProjectFiles => {
                return StructValue::text("ReloadProjectFiles");
            },
            FileManagerCommand::OpenFile(p) => ("OpenFile", p),
            FileManagerCommand::CloseFile(p) => ("CloseFile", p),
            FileManagerCommand::RequestContextMenu(p) => ("RequestContextMenu", p),
        };
        let mut outer: Vec<(String, StructValue)> = Vec::new();
        outer.push((key.to_owned(), StructValue::Text(path.clone())));
        let ghost go = outer@;
        let r = StructValue::Object(outer);
        proof {
            lemma_fields_view(go);
            assert(fields_view(go) =~= spec_enc_fm_command(self@)->Object_0);
            assert(r@ == spec_enc_fm_command(self@));
        }
        r
    }
}

impl ICommand for FileManagerCommand {
    open spec fn spec_action(&self) -> Seq<char> {
        fm_action()
    }

    open spec fn spec_args(&self) -> SpecValue {
        self.spec_enc()
    }

    fn action(&self) -> (r: String) {
        "designer.file_manager.management".to_owned()
    }

    fn args(&self) -> (r: StructValue) {
        self.encode()
    }
}

/// Decodes a file manager command; the result models
/// `spec_dec_fm_command`.
pub fn decode_fm_command(v: &StructValue) -> (r: Option<FileManagerCommand>)
    ensures
        match r {
            Option::Some(c) => spec_dec_fm_command(v@) == Option::Some(c@),
            Option::None => spec_dec_fm_command(v@) is None,
        },
{
    match v.as_text() {
        Option::Some(s) => {
            if str_eq(s.as_str(), "ReloadProjectFiles") {
                Option::Some(FileManagerCommand::ReloadProjectFiles)
            } else {
                Option::None
            }
        },
        Option::None => {
            match v.get("OpenFile") {
                Option::Some(inner) => {
                    match inner.as_text() {
                        Option::Some(p) => Option::Some(FileManagerCommand::OpenFile(p.clone())),
                        Option::None => Option::None,
                    }
                },
                Option::None => {
                    match v.get("CloseFile") {
                        Option::Some(inner) => {
                            match inner.as_text() {
                                Option::Some(p) => Option::Some(
                                    FileManagerCommand::CloseFile(p.clone()),
                                ),
                                Option::None => Option::None,
                            }
                        },
                        Option::None => {
                            match v.get("RequestContextMenu") {
                                Option::Some(inner) => {
                                    match inner.as_text() {
                                        Option::Some(p) => Option::Some(
                                            FileManagerCommand::RequestContextMenu(p.clone()),
                                        ),
                                        Option::None => Option::None,
                                    }
                                },
                                Option::None => Option::None,
                            }
                        },
                    }
                },
            }
        },
    }
}

/// Law: decoding an encoded file manager command restores it.
pub proof fn lemma_fm_command_round_trip(c: FileManagerCommandV)
    ensures
        spec_dec_fm_command(spec_enc_fm_command(c)) == Option::Some(c),
{
    reveal_strlit("OpenFile");
    reveal_strlit("CloseFile");
    reveal_strlit("RequestContextMenu");
    assert("OpenFile"@.len() == 8);
    assert("CloseFile"@.len() == 9);
    assert("RequestContextMenu"@.len() == 18);
    match c {
        FileManagerCommandV::ReloadProjectFiles => {
        },
        FileManagerCommandV::OpenFile(p) => {
            let outer = spec_enc_fm_command(c)->Object_0;
            crate::value::lemma_fields_get_found(outer, "OpenFile"@, 0);
        },
        FileManagerCommandV::CloseFile(p) => {
            let outer = spec_enc_fm_command(c)->Object_0;
            crate::value::lemma_fields_get_missing(outer, "OpenFile"@);
            crate::value::lemma_fields_get_found(outer, "CloseFile"@, 0);
        },
        FileManagerCommandV::RequestContextMenu(p) => {
            let outer = spec_enc_fm_command(c)->Object_0;
            crate::value::lemma_fields_get_missing(outer, "OpenFile"@);
            crate::value::lemma_fields_get_missing(outer, "CloseFile"@);
            crate::value::lemma_fields_get_found(outer, "RequestContextMenu"@, 0);
        },
    }
}

/// The events the file manager announces.
#[derive(Debug, Clone, Copy, PartialEq, Eq, Structural)]
pub enum FileManagerEvent {
    /// The project's file tree was re-read.
    ProjectFilesAreReopened,
}

/// Encoding of a file manager event.
pub open spec fn spec_enc_fm_event(e: FileManagerEvent) -> SpecValue {
    SpecValue::Text("ProjectFilesAreReopened"@)
}

impl IEncode for FileManagerEvent {
    open spec fn spec_enc(&self) -> SpecValue {
        spec_enc_fm_event(*self)
    }

    fn encode(&self) -> (r: StructValue) {
        StructValue::text("ProjectFilesAreReopened")
    }
}

impl ICommand for FileManagerEvent {
    open spec fn spec_action(&self) -> Seq<char> {
        fm_event_action()
    }

    open spec fn spec_args(&self) -> SpecValue {
        self.spec_enc()
    }

    fn action(&self) -> (r: String) {
        "designer.file_manager.event".to_owned()
    }

    fn args(&self) -> (r: StructValue) {
        self.encode()
    }
}

/// The host's answer to a file tree scan request.
#[derive(Debug)]
pub enum FileManagerIo {
    /// The scanned tree, rooted at the project directory.
    TreeLoaded { root: FileEntry },
}

/// The mathematical model of a `FileManagerIo`.
#[verifier::ext_equal]
pub ghost enum FileManagerIoV {
    TreeLoaded { root: FileEntryV },
}

impl View for FileManagerIo {
    type V = FileManagerIoV;

    open spec fn view(&self) -> FileManagerIoV {
        match self {
            FileManagerIo::TreeLoaded { root } => FileManagerIoV::TreeLoaded { root: root@ },
        }
    }
}

/// Encoding of a host answer.
pub open spec fn spec_enc_fm_io(e: FileManagerIoV) -> SpecValue {
    match e {
        FileManagerIoV::TreeLoaded { root } => SpecValue::Object(
            seq![("TreeLoaded"@, spec_enc_entry(root))],
        ),
    }
}

/// Decoding of a host answer.
pub open spec fn spec_dec_fm_io(v: SpecValue) -> Option<FileManagerIoV> {
    match spec_get(v, "TreeLoaded"@) {
        Option::Some(inner) => match spec_dec_entry(inner) {
            Option::Some(root) => Option::Some(FileManagerIoV::TreeLoaded { root }),
            Option::None => Option::None,
        },
        Option::None => Option::None,
    }
}

impl IEncode for FileManagerIo {
    open spec fn spec_enc(&self) -> SpecValue {
        spec_enc_fm_io(self@)
    }

    fn encode(&self) -> (r: StructValue) {
        match self {
            FileManagerIo::TreeLoaded { root } => {
                let mut outer: Vec<(String, StructValue)> = Vec::new();
                outer.push(("TreeLoaded".to_owned(), encode_entry(root)));
                let ghost go = outer@;
                let r = StructValue::Object(outer);
                proof {
                    lemma_fields_view(go);
                    assert(fields_view(go) =~= spec_enc_fm_io(self@)->Object_0);
                    assert(r@ == spec_enc_fm_io(self@));
                }
                r
            },
        }
    }
}

impl ICommand for FileManagerIo {
    open spec fn spec_action(&self) -> Seq<char> {
        fm_io_action()
    }

    open spec fn spec_args(&self) -> SpecValue {
        self.spec_enc()
    }

    fn action(&self) -> (r: String) {
        "designer.file_manager.io".to_owned()
    }

    fn args(&self) -> (r: StructValue) {
        self.encode()
    }
}

/// Decodes a host answer; the result models `spec_dec_fm_io`.
pub fn decode_fm_io(v: &StructValue) -> (r: Option<FileManagerIo>)
    ensures
        match r {
            Option::Some(e) => spec_dec_fm_io(v@) == Option::Some(e@),
            Option::None => spec_dec_fm_io(v@) is None,
        },
{
    match v.get("TreeLoaded") {
        Option::Some(inner) => {
            match decode_entry(inner) {
                Option::Some(root) => Option::Some(FileManagerIo::TreeLoaded { root }),
                Option::None => Option::None,
            }
        },
        Option::None => Option::None,
    }
}

/// Law: decoding an encoded host answer restores it.
pub proof fn lemma_fm_io_round_trip(e: FileManagerIoV)
    ensures
        spec_dec_fm_io(spec_enc_fm_io(e)) == Option::Some(e),
{
    match e {
        FileManagerIoV::TreeLoaded { root } => {
            let outer = spec_enc_fm_io(e)->Object_0;
            crate::value::lemma_fields_get_found(outer, "TreeLoaded"@, 0);
            lemma_entry_round_trip(root);
        },
    }
}

/// Serves the file browser: keeps the open project's file tree.
#[derive(Debug)]
pub struct FileManager {
    pub status: PluginStatus,
    pub root: Option<FileEntry>,
}

/// The mathematical model of a `FileManager`.
#[verifier::ext_equal]
pub ghost struct FileManagerV {
    pub status: PluginStatus,
    pub root: Option<FileEntryV>,
}

impl View for FileManager {
    type V = FileManagerV;

    open spec fn view(&self) -> FileManagerV {
        FileManagerV {
            status: self.status,
            root: match self.root {
                Option::Some(e) => Option::Some(e@),
                Option::None => Option::None,
            },
        }
    }
}

/// The `ReloadProjectFiles` command the file manager publishes to itself
/// when a project opens, as an envelope.
pub open spec fn fm_reload_env() -> SpecEnvelope {
    SpecEnvelope {
        sender: fm_sender(),
        action: fm_action(),
        payload: spec_enc_fm_command(FileManagerCommandV::ReloadProjectFiles),
    }
}

/// The announcement that the file tree was re-read, as an envelope.
pub open spec fn fm_reopened_env() -> SpecEnvelope {
    SpecEnvelope {
        sender: fm_sender(),
        action: fm_event_action(),
        payload: spec_enc_fm_event(FileManagerEvent::ProjectFilesAreReopened),
    }
}

/// How the file manager reacts to one delivered envelope.  The project
/// manager's `Opened` announcement makes it ask itself to reload;
/// `ReloadProjectFiles` turns into a scan request for the host when a
/// project is open; the host's answer installs the tree and announces that
/// the files were re-read.  Malformed payloads and foreign actions change
/// nothing.
pub open spec fn fm_step(
    m: FileManagerV,
    ppath: Option<Seq<char>>,
    sender: Seq<char>,
    action: Seq<char>,
    args: SpecValue,
) -> StepV<FileManagerV> {
    if sender == pm_sender() && action == pm_event_action() {
        match spec_dec_pm_event(args) {
            Option::Some(ProjectManagerEventV::Opened { path }) => StepV {
                state: m,
                publishes: seq![fm_reload_env()],
                requests: Seq::empty(),
                notify: false,
            },
            _ => quiet_step(m),
        }
    } else if action == fm_action() {
        match spec_dec_fm_command(args) {
            Option::Some(FileManagerCommandV::ReloadProjectFiles) => match ppath {
                Option::Some(path) => StepV {
                    state: m,
                    publishes: Seq::empty(),
                    requests: seq![HostRequestV::ScanProjectFiles { path }],
                    notify: false,
                },
                Option::None => quiet_step(m),
            },
            _ => quiet_step(m),
        }
    } else if action == fm_io_action() {
        match spec_dec_fm_io(args) {
            Option::Some(FileManagerIoV::TreeLoaded { root }) => StepV {
                state: FileManagerV { status: m.status, root: Option::Some(root) },
                publishes: seq![fm_reopened_env()],
                requests: Seq::empty(),
                notify: false,
            },
            Option::None => quiet_step(m),
        }
    } else {
        quiet_step(m)
    }
}

/// The snapshot `get_state` reports: the file tree, or null when no project
/// has been scanned.
pub open spec fn fm_snapshot(m: FileManagerV) -> SpecValue {
    SpecValue::Object(
        seq![
            (
                "root"@,
                match m.root {
                    Option::Some(e) => spec_enc_entry(e),
                    Option::None => SpecValue::Null,
                },
            ),
        ],
    )
}

/// Decoding of a persisted file manager snapshot: the file tree, if any.
/// The lifecycle status is runtime-only.
pub open spec fn fm_restore(v: SpecValue) -> Option<Option<FileEntryV>> {
    match spec_get(v, "root"@) {
        Option::Some(SpecValue::Null) => Option::Some(Option::None),
        Option::Some(rv) => match spec_dec_entry(rv) {
            Option::Some(e) => Option::Some(Option::Some(e)),
            Option::None => Option::None,
        },
        Option::None => Option::None,
    }
}

impl FileManager {
    /// A fresh file manager: no tree scanned, initially disabled.
    pub fn new() -> (r: Self)
        ensures
            r@ == (FileManagerV { status: PluginStatus::Disabled, root: Option::None }),
    {
        FileManager { status: PluginStatus::Disabled, root: Option::None }
    }

    /// This plugin's immutable identity.
    pub fn info(&self) -> (r: PluginInfo)
        ensures
            r.uuid@ == "cfa0bc17-f2f7-4ca4-bd6d-1957ab5bfeff"@,
            r.name@ == "File manager (Native Plugin)"@,
            r.description@ == "Responsible to load or store files, as well as serve for file manager window."@,
            r.version == (0usize, 0usize, 1usize),
            r.author@ == "dream-lab"@,
    {
        PluginInfo {
            name: "File manager (Native Plugin)".to_owned(),
            author: "dream-lab",
            uuid: "cfa0bc17-f2f7-4ca4-bd6d-1957ab5bfeff",
            version: (0, 0, 1),
            description: "Responsible to load or store files, as well as serve for file manager window.".to_owned(),
        }
    }

    /// The current lifecycle status.
    pub fn status(&self) -> (r: PluginStatus)
        ensures
            r == self.status,
    {
        self.status
    }

    /// One-time setup before the first enable; the file manager needs none.
    pub fn initialize(&mut self)
        ensures
            *final(self) == *old(self),
    {
    }

    /// Starts receiving envelopes.  Idempotent.
    pub fn enable(&mut self)
        ensures
            final(self)@ == (FileManagerV { status: PluginStatus::Enabled, root: old(self)@.root }),
    {
        self.status = PluginStatus::Enabled;
    }

    /// Stops receiving envelopes but keeps the tree.  Idempotent.
    pub fn disable(&mut self)
        ensures
            final(self)@ == (FileManagerV {
                status: PluginStatus::Disabled,
                root: old(self)@.root,
            }),
    {
        self.status = PluginStatus::Disabled;
    }

    /// Handles one delivered envelope, exactly as `fm_step` says, given the
    /// open project's path.
    pub fn handle_message(
        &mut self,
        bus: &mut Dispatcher,
        project_path: &Option<String>,
        sender: &str,
        action: &str,
        args: StructValue,
    )
        requires
            old(bus).inv(),
            old(bus).busy(),
        ensures
            final(bus).inv(),
            ({
                let st = fm_step(
                    old(self)@,
                    crate::value::opt_text_view(*project_path),
                    sender@,
                    action@,
                    args@,
                );
                final(self)@ == st.state && bus_effect(
                    *old(bus),
                    *final(bus),
                    st.publishes,
                    st.requests,
                    st.notify,
                )
            }),
    {
        if str_eq(sender, "designer.project_manager") && str_eq(
            action,
            "designer.project_manager.event",
        ) {
            match decode_pm_event(&args) {
                Option::Some(ProjectManagerEvent::Opened { path }) => {
                    bus.publish("designer.file_manager", &FileManagerCommand::ReloadProjectFiles);
                    proof {
                        let st = fm_step(
                            old(self)@,
                            crate::value::opt_text_view(*project_path),
                            sender@,
                            action@,
                            args@,
                        );
                        assert(st.publishes =~= seq![fm_reload_env()]);
                        assert(final(bus).requests_model() =~= old(bus).requests_model()
                            + st.requests);
                    }
                },
                _ => {
                    proof {
                        lemma_bus_unchanged(*bus);
                    }
                },
            }
        } else if str_eq(action, "designer.file_manager.management") {
            match decode_fm_command(&args) {
                Option::Some(FileManagerCommand::ReloadProjectFiles) => {
                    match project_path {
                        Option::Some(path) => {
                            bus.request(HostRequest::ScanProjectFiles { path: path.clone() });
                            proof {
                                let st = fm_step(
                                    old(self)@,
                                    crate::value::opt_text_view(*project_path),
                                    sender@,
                                    action@,
                                    args@,
                                );
                                assert(final(bus).queue_model() =~= old(bus).queue_model()
                                    + st.publishes);
                                assert(final(bus).published() =~= old(bus).published()
                                    + st.publishes);
                                assert(final(bus).requests_model() =~= old(bus).requests_model()
                                    + st.requests);
                            }
                        },
                        Option::None => {
                            proof {
                                lemma_bus_unchanged(*bus);
                            }
                        },
                    }
                },
                _ => {
                    proof {
                        lemma_bus_unchanged(*bus);
                    }
                },
            }
        } else if str_eq(action, "designer.file_manager.io") {
            match decode_fm_io(&args) {
                Option::Some(FileManagerIo::TreeLoaded { root }) => {
                    self.root = Option::Some(root);
                    bus.publish(
                        "designer.file_manager",
                        &FileManagerEvent::ProjectFilesAreReopened,
                    );
                    proof {
                        let st = fm_step(
                            old(self)@,
                            crate::value::opt_text_view(*project_path),
                            sender@,
                            action@,
                            args@,
                        );
                        assert(self@ == st.state);
                        assert(st.publishes =~= seq![fm_reopened_env()]);
                        assert(final(bus).requests_model() =~= old(bus).requests_model()
                            + st.requests);
                    }
                },
                Option::None => {
                    proof {
                        lemma_bus_unchanged(*bus);
                    }
                },
            }
        } else {
            proof {
                lemma_bus_unchanged(*bus);
            }
        }
    }

    /// A read-only structured snapshot for diagnostics and the UI.
    pub fn get_state(&self) -> (r: StructValue)
        ensures
            r@ == fm_snapshot(self@),
    {
        let root_value = match &self.root {
            Option::Some(e) => encode_entry(e),
            Option::None => StructValue::Null,
        };
        let mut fields: Vec<(String, StructValue)> = Vec::new();
        fields.push(("root".to_owned(), root_value));
        let ghost gf = fields@;
        let r = StructValue::Object(fields);
        proof {
            lemma_fields_view(gf);
            assert(fields_view(gf) =~= fm_snapshot(self@)->Object_0);
            assert(r@ == fm_snapshot(self@));
        }
        r
    }

    /// Persists the snapshot that `get_state` reports.
    pub fn store_state<S: IPluginStateStorage>(&self, storage: &mut S)
        ensures
            final(storage).stored() == fm_snapshot(self@),
    {
        let snapshot = self.get_state();
        storage.store_state(snapshot);
    }

    /// Restores the file tree from the last persisted snapshot; the
    /// lifecycle status is runtime-only and keeps its value.  A snapshot
    /// that does not decode leaves the plugin unchanged and reports the
    /// failure instead of aborting.
    pub fn load_state<S: IPluginStateStorage>(&mut self, storage: &mut S) -> (r: Result<
        (),
        CoreError,
    >)
        ensures
            final(storage).stored() == old(storage).stored(),
            match fm_restore(old(storage).stored()) {
                Option::Some(root) => r is Ok && final(self)@ == (FileManagerV {
                    status: old(self)@.status,
                    root,
                }),
                Option::None => r == Result::<(), CoreError>::Err(
                    CoreError::StateDeserializationFailed,
                ) && *final(self) == *old(self),
            },
    {
        let value = storage.load_state();
        let rv = match value.get("root") {
            Option::Some(x) => x,
            Option::None => {
                return Result::Err(CoreError::StateDeserializationFailed);
            },
        };
        let root: Option<FileEntry> = match rv {
            StructValue::Null => Option::None,
            _ => {
                match decode_entry(rv) {
                    Option::Some(e) => Option::Some(e),
                    Option::None => {
                        return Result::Err(CoreError::StateDeserializationFailed);
                    },
                }
            },
        };
        self.root = root;
        Result::Ok(())
    }
}

/// Law: restoring the persisted snapshot of any file manager yields exactly
/// its file tree, so a store followed by a load leaves `get_state`
/// unchanged.
pub proof fn lemma_fm_state_round_trip(m: FileManagerV)
    ensures
        fm_restore(fm_snapshot(m)) == Option::Some(m.root),
{
    reveal_strlit("root");
    let fields = fm_snapshot(m)->Object_0;
    crate::value::lemma_fields_get_found(fields, "root"@, 0);
    match m.root {
        Option::Some(e) => {
            lemma_entry_round_trip(e);
        },
        Option::None => {
        },
    }
}

} // verus!
