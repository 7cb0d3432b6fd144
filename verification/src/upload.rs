use vstd::prelude::*;
use vstd::string::*;
use vstd::utf8::{decode_utf8, valid_utf8};

use crate::paths::{upload_path, upload_path_spec};
use crate::service::{function_bucket, function_bucket_spec, Reply};
use crate::text::{decode_utf8_text, text_equals};

verus! {

/// The part of an upload form that a field holds.
pub enum FormField {
    /// The `fn_name` field: the name to store the function under.
    FunctionName,
    /// The `wasm_file` field: the module's bytes.
    WasmFile,
    /// Any other field, which the upload ignores.
    Other,
}

/// Which part of the form the field called `name` holds.
pub fn form_field(name: &str) -> (f: FormField)
    ensures
        name@ == "fn_name"@ ==> f is FunctionName,
        name@ == "wasm_file"@ ==> f is WasmFile,
        name@ != "fn_name"@ && name@ != "wasm_file"@ ==> f is Other,
{
    proof {
        reveal_strlit("fn_name");
        reveal_strlit("wasm_file");
        assert("fn_name"@.len() != "wasm_file"@.len());
    }
    if text_equals(name, "fn_name") {
        FormField::FunctionName
    } else if text_equals(name, "wasm_file") {
        FormField::WasmFile
    } else {
        FormField::Other
    }
}

/// What an upload form has delivered so far: the name of the function, the
/// module's bytes, and the bytes of the name field that is still arriving.
pub struct UploadForm {
    pub fn_name: String,
    pub wasm_data: Vec<u8>,
    pub name_bytes: Vec<u8>,
}

/// The mathematical value of a form: name, module bytes, pending name bytes.
pub type FormView = (Seq<char>, Seq<u8>, Seq<u8>);

/// What a form holds after one more chunk of a field: a chunk of the name
/// field is added to the pending name bytes, a chunk of the module is added
/// to the module, anything else leaves the form as it was.
pub open spec fn accept_spec(form: FormView, field: FormField, chunk: Seq<u8>) -> FormView {
    match field {
        FormField::FunctionName => (form.0, form.1, form.2 + chunk),
        FormField::WasmFile => (form.0, form.1 + chunk, form.2),
        FormField::Other => form,
    }
}

/// What a form holds when a field ends: at the end of the name field, its
/// whole text becomes the name when it is valid UTF-8 (otherwise the name
/// stays), and the pending bytes are cleared; other fields change nothing.
pub open spec fn end_field_spec(form: FormView, field: FormField) -> FormView {
    match field {
        FormField::FunctionName => (
            if valid_utf8(form.2) { decode_utf8(form.2) } else { form.0 },
            form.1,
            Seq::empty(),
        ),
        _ => form,
    }
}

/// The chunks `chunks` of one field, joined in order.
pub open spec fn joined(chunks: Seq<Seq<u8>>) -> Seq<u8>
    decreases chunks.len(),
{
    if chunks.len() == 0 {
        Seq::empty()
    } else {
        joined(chunks.drop_last()) + chunks.last()
    }
}

/// What a form holds after the chunks `chunks` of the field `field`.
pub open spec fn chunks_after(form: FormView, field: FormField, chunks: Seq<Seq<u8>>) -> FormView
    decreases chunks.len(),
{
    if chunks.len() == 0 {
        form
    } else {
        accept_spec(chunks_after(form, field, chunks.drop_last()), field, chunks.last())
    }
}

/// What a form holds after the fields `parts` (each a field and its chunks),
/// one after another, each ended after its chunks.
pub open spec fn form_after(form: FormView, parts: Seq<(FormField, Seq<Seq<u8>>)>) -> FormView
    decreases parts.len(),
{
    if parts.len() == 0 {
        form
    } else {
        let p = parts.last();
        end_field_spec(chunks_after(form_after(form, parts.drop_last()), p.0, p.1), p.0)
    }
}

/// The bytes of the module fields among `parts`, in order.
pub open spec fn module_bytes(parts: Seq<(FormField, Seq<Seq<u8>>)>) -> Seq<u8>
    decreases parts.len(),
{
    if parts.len() == 0 {
        Seq::empty()
    } else {
        module_bytes(parts.drop_last()) + match parts.last().0 {
            FormField::WasmFile => joined(parts.last().1),
            _ => Seq::<u8>::empty(),
        }
    }
}

/// The name that the name fields among `parts` leave: the whole text of the
/// last one that is valid UTF-8, or `name` when there is none.
pub open spec fn last_valid_name(name: Seq<char>, parts: Seq<(FormField, Seq<Seq<u8>>)>) -> Seq<char>
    decreases parts.len(),
{
    if parts.len() == 0 {
        name
    } else if parts.last().0 is FunctionName && valid_utf8(joined(parts.last().1)) {
        decode_utf8(joined(parts.last().1))
    } else {
        last_valid_name(name, parts.drop_last())
    }
}

proof fn lemma_chunks_after(form: FormView, field: FormField, chunks: Seq<Seq<u8>>)
    ensures
        chunks_after(form, field, chunks) == match field {
            FormField::FunctionName => (form.0, form.1, form.2 + joined(chunks)),
            FormField::WasmFile => (form.0, form.1 + joined(chunks), form.2),
            FormField::Other => form,
        },
    decreases chunks.len(),
{
    if chunks.len() == 0 {
        assert(form.1 + Seq::<u8>::empty() =~= form.1);
        assert(form.2 + Seq::<u8>::empty() =~= form.2);
    } else {
        let init = chunks.drop_last();
        lemma_chunks_after(form, field, init);
        assert(form.1 + joined(init) + chunks.last() =~= form.1 + (joined(init) + chunks.last()));
        assert(form.2 + joined(init) + chunks.last() =~= form.2 + (joined(init) + chunks.last()));
    }
}

/// Whatever order the fields come in and however they are split into
/// chunks, the module an upload stores is exactly its module fields joined
/// in order, and its name is the whole text of the last name field that is
/// valid UTF-8.
pub proof fn law_form_collects_fields(name: Seq<char>, data: Seq<u8>, parts: Seq<(FormField, Seq<Seq<u8>>)>)
    ensures
        form_after((name, data, Seq::empty()), parts) == (
            last_valid_name(name, parts),
            data + module_bytes(parts),
            Seq::<u8>::empty(),
        ),
    decreases parts.len(),
{
    if parts.len() == 0 {
        assert(data + Seq::<u8>::empty() =~= data);
    } else {
        let init = parts.drop_last();
        let p = parts.last();
        law_form_collects_fields(name, data, init);
        let before = form_after((name, data, Seq::empty()), init);
        lemma_chunks_after(before, p.0, p.1);
        let rest = module_bytes(init);
        match p.0 {
            FormField::WasmFile => {
                assert(data + rest + joined(p.1) =~= data + (rest + joined(p.1)));
            },
            FormField::FunctionName => {
                assert(Seq::<u8>::empty() + joined(p.1) =~= joined(p.1));
                assert(rest + Seq::<u8>::empty() =~= rest);
            },
            FormField::Other => {
                assert(rest + Seq::<u8>::empty() =~= rest);
            },
        }
    }
}

/// Adds the bytes of `chunk` to the end of `bytes`.
fn append_bytes(bytes: &mut Vec<u8>, chunk: &[u8])
    ensures
        final(bytes)@ == old(bytes)@ + chunk@,
{
    let mut i: usize = 0;
    while i < chunk.len()
        invariant
            i <= chunk@.len(),
            bytes@ =~= old(bytes)@ + chunk@.subrange(0, i as int),
        decreases chunk@.len() - i,
    {
        bytes.push(chunk[i]);
        i = i + 1;
    }
    assert(chunk@.subrange(0, chunk@.len() as int) =~= chunk@);
}

/// A module ready to be stored: its name, its bytes, where it is written
/// first and the bucket it goes to.
pub struct UploadJob {
    pub fn_name: String,
    pub wasm_data: Vec<u8>,
    pub path: String,
    pub bucket: String,
}

/// How storing an uploaded module went.
pub enum UploadOutcome {
    /// The directory for the temporary file could not be made.
    DirectoryFailed(String),
    /// The temporary file could not be written.
    WriteFailed(String),
    /// The object store refused the module.
    StoreFailed(String),
    /// The module is in the object store.
    Stored,
}

impl UploadForm {
    /// A form that has delivered nothing yet.
    pub fn new() -> (f: Self)
        ensures
            f.fn_name@ == Seq::<char>::empty(),
            f.wasm_data@ == Seq::<u8>::empty(),
            f.name_bytes@ == Seq::<u8>::empty(),
    {
        UploadForm { fn_name: String::new(), wasm_data: Vec::new(), name_bytes: Vec::new() }
    }

    /// Takes one chunk of the field `field`.
    pub fn accept(&mut self, field: &FormField, chunk: &[u8])
        ensures
            (final(self).fn_name@, final(self).wasm_data@, final(self).name_bytes@) == accept_spec(
                (old(self).fn_name@, old(self).wasm_data@, old(self).name_bytes@),
                *field,
                chunk@,
            ),
    {
        match field {
            FormField::FunctionName => {
                append_bytes(&mut self.name_bytes, chunk);
            },
            FormField::WasmFile => {
                append_bytes(&mut self.wasm_data, chunk);
            },
            FormField::Other => {},
        }
    }

    /// Marks the end of the field `field`, after all its chunks.
    pub fn end_field(&mut self, field: &FormField)
        ensures
            (final(self).fn_name@, final(self).wasm_data@, final(self).name_bytes@) == end_field_spec(
                (old(self).fn_name@, old(self).wasm_data@, old(self).name_bytes@),
                *field,
            ),
    {
        match field {
            FormField::FunctionName => {
                match decode_utf8_text(self.name_bytes.as_slice()) {
                    Some(name) => {
                        self.fn_name = name;
                    },
                    None => {},
                }
                self.name_bytes = Vec::new();
            },
            _ => {},
        }
    }

    /// Ends the form: a job for a named, non-empty module, otherwise the
    /// 400 answer that the upload gets. (Name bytes of a field that was
    /// never ended are not used.)
    pub fn finish(self) -> (r: Result<UploadJob, Reply>)
        ensures
            self.fn_name@.len() == 0 || self.wasm_data@.len() == 0 ==> (r matches Err(
                Reply::Text { status, body },
            ) && status == 400 && body@ == "Missing function name or empty WASM file"@),
            self.fn_name@.len() > 0 && self.wasm_data@.len() > 0 ==> (r matches Ok(job)
                && job.fn_name@ == self.fn_name@ && job.wasm_data@ == self.wasm_data@
                && job.path@ == upload_path_spec(self.fn_name@)
                && job.bucket@ == function_bucket_spec()),
    {
        if self.fn_name.as_str().unicode_len() == 0 || self.wasm_data.len() == 0 {
            return Err(
                Reply::Text {
                    status: 400,
                    body: String::from_str("Missing function name or empty WASM file"),
                },
            );
        }
        let path = upload_path(self.fn_name.as_str());
        Ok(UploadJob { fn_name: self.fn_name, wasm_data: self.wasm_data, path, bucket: function_bucket() })
    }
}

/// The answer to an upload of the function `fn_name` that went as `outcome` says.
pub fn upload_reply(fn_name: &String, outcome: UploadOutcome) -> (r: Reply)
    ensures
        match outcome {
            UploadOutcome::DirectoryFailed(e) => r matches Reply::Text { status, body } && status == 500
                && body@ == "Failed to create directory: "@ + e@,
            UploadOutcome::WriteFailed(e) => r matches Reply::Text { status, body } && status == 500
                && body@ == "Failed to write file: "@ + e@,
            UploadOutcome::StoreFailed(e) => r matches Reply::Text { status, body } && status == 500
                && body@ == "Failed to upload file to MinIO: "@ + e@,
            UploadOutcome::Stored => r matches Reply::Text { status, body } && status == 200
                && body@ == "Function '"@ + fn_name@ + "' uploaded successfully"@,
        },
{
    match outcome {
        UploadOutcome::DirectoryFailed(e) => {
            let mut body = String::from_str("Failed to create directory: ");
            body.append(e.as_str());
            Reply::Text { status: 500, body }
        },
        UploadOutcome::WriteFailed(e) => {
            let mut body = String::from_str("Failed to write file: ");
            body.append(e.as_str());
            Reply::Text { status: 500, body }
        },
        UploadOutcome::StoreFailed(e) => {
            let mut body = String::from_str("Failed to upload file to MinIO: ");
            body.append(e.as_str());
            Reply::Text { status: 500, body }
        },
        UploadOutcome::Stored => {
            let mut body = String::from_str("Function '");
            body.append(fn_name.as_str());
            body.append("' uploaded successfully");
            Reply::Text { status: 200, body }
        },
    }
}

} // verus!
