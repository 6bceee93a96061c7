//! Multipart form bodies and the archives that go into them.
use vstd::prelude::*;
use vstd::string::*;
use vstd::utf8::encode_utf8;
use vstd::utf8::is_ascii_chars_encode_utf8;

use crate::lines::extend_bytes;
use crate::outside::random_below;
use crate::outside::zip_archive;
use crate::outside::zip_one;

verus! {

/// An ASCII letter or digit.
pub open spec fn is_alnum(c: char) -> bool {
    'A' <= c <= 'Z' || 'a' <= c <= 'z' || '0' <= c <= '9'
}

/// Letter or digit number `i`: the upper-case letters, the lower-case ones, the digits.
fn alnum_char(i: u64) -> (r: char)
    requires
        i < 62,
    ensures
        is_alnum(r),
        i < 26 ==> r as int == 'A' as int + i,
        26 <= i < 52 ==> r as int == 'a' as int + (i - 26),
        52 <= i ==> r as int == '0' as int + (i - 52),
{
    if i < 26 {
        (65 + i as u8) as char
    } else if i < 52 {
        (97 + (i - 26) as u8) as char
    } else {
        (48 + (i - 52) as u8) as char
    }
}

/// `n` random letters and digits.
pub fn random_alnum(n: usize) -> (r: String)
    ensures
        r@.len() == n,
        forall|i: int| 0 <= i < n ==> is_alnum(#[trigger] r@[i]),
{
    let mut out = String::new();
    let mut i: usize = 0;
    while i < n
        invariant
            i <= n,
            out@.len() == i,
            forall|j: int| 0 <= j < i ==> is_alnum(#[trigger] out@[j]),
        decreases n - i,
    {
        out.push(alnum_char(random_below(62)));
        i = i + 1;
    }
    out
}

/// A file in a form: its field name, its file name, its content type and its bytes.
pub struct FileModel {
    pub field: Seq<char>,
    pub name: Seq<char>,
    pub content_type: Seq<char>,
    pub data: Seq<u8>,
}

/// The names and values of form fields.
pub open spec fn field_models(fields: Seq<(&str, &str)>) -> Seq<(Seq<char>, Seq<char>)> {
    fields.map_values(|f: (&str, &str)| (f.0@, f.1@))
}

/// The models of the files of a form.
pub open spec fn file_models(files: Seq<(&str, &str, &str, Vec<u8>)>) -> Seq<FileModel> {
    files.map_values(
        |f: (&str, &str, &str, Vec<u8>)|
            FileModel { field: f.0@, name: f.1@, content_type: f.2@, data: f.3@ },
    )
}

/// The part of a form field: its name and its value.
pub open spec fn field_part(boundary: Seq<char>, field: (Seq<char>, Seq<char>)) -> Seq<char> {
    "--"@ + boundary + "\r\nContent-Disposition: form-data; name=\""@ + field.0 + "\"\r\n\r\n"@
        + field.1 + "\r\n"@
}

/// What precedes the bytes of a file: its field name, its file name and its content type.
pub open spec fn file_header(boundary: Seq<char>, file: FileModel) -> Seq<char> {
    "--"@ + boundary + "\r\nContent-Disposition: form-data; name=\""@ + file.field
        + "\"; filename=\""@ + file.name + "\"\r\nContent-Type: "@ + file.content_type
        + "\r\n\r\n"@
}

/// What closes the body.
pub open spec fn closing(boundary: Seq<char>) -> Seq<char> {
    "--"@ + boundary + "--\r\n"@
}

/// The parts of the form fields, one after the other.
pub open spec fn field_parts(boundary: Seq<char>, fields: Seq<(Seq<char>, Seq<char>)>) -> Seq<u8>
    decreases fields.len(),
{
    if fields.len() == 0 {
        seq![]
    } else {
        field_parts(boundary, fields.drop_last()) + encode_utf8(
            field_part(boundary, fields.last()),
        )
    }
}

/// The parts of the files, one after the other.
pub open spec fn file_parts(boundary: Seq<char>, files: Seq<FileModel>) -> Seq<u8>
    decreases files.len(),
{
    if files.len() == 0 {
        seq![]
    } else {
        file_parts(boundary, files.drop_last()) + encode_utf8(file_header(boundary, files.last()))
            + files.last().data + encode_utf8("\r\n"@)
    }
}

/// A whole form: its fields, its files and the closing delimiter.
pub open spec fn multipart_body(
    boundary: Seq<char>,
    fields: Seq<(Seq<char>, Seq<char>)>,
    files: Seq<FileModel>,
) -> Seq<u8> {
    field_parts(boundary, fields) + file_parts(boundary, files) + encode_utf8(closing(boundary))
}

/// Lays out a form with the given boundary.
pub fn multipart_with(
    boundary: &str,
    fields: &Vec<(&str, &str)>,
    files: &Vec<(&str, &str, &str, Vec<u8>)>,
) -> (body: Vec<u8>)
    ensures
        body@ == multipart_body(boundary@, field_models(fields@), file_models(files@)),
{
    let ghost fs = field_models(fields@);
    let ghost gs = file_models(files@);
    let mut body: Vec<u8> = Vec::new();
    let mut i: usize = 0;
    proof {
        assert(fs.take(0) =~= seq![]);
    }
    while i < fields.len()
        invariant
            i <= fields@.len(),
            fs == field_models(fields@),
            body@ == field_parts(boundary@, fs.take(i as int)),
        decreases fields@.len() - i,
    {
        let mut part = "--".to_owned();
        part.append(boundary);
        part.append("\r\nContent-Disposition: form-data; name=\"");
        part.append(fields[i].0);
        part.append("\"\r\n\r\n");
        part.append(fields[i].1);
        part.append("\r\n");
        extend_bytes(&mut body, part.as_str().as_bytes());
        proof {
            assert(fs.take(i + 1).drop_last() =~= fs.take(i as int));
            assert(fs.take(i + 1).last() == fs[i as int]);
        }
        i = i + 1;
    }
    let ghost head = body@;
    proof {
        assert(fs.take(fs.len() as int) =~= fs);
        assert(gs.take(0) =~= seq![]);
        assert(head + file_parts(boundary@, gs.take(0)) =~= head);
    }
    let mut k: usize = 0;
    while k < files.len()
        invariant
            k <= files@.len(),
            gs == file_models(files@),
            body@ == head + file_parts(boundary@, gs.take(k as int)),
        decreases files@.len() - k,
    {
        let mut header = "--".to_owned();
        header.append(boundary);
        header.append("\r\nContent-Disposition: form-data; name=\"");
        header.append(files[k].0);
        header.append("\"; filename=\"");
        header.append(files[k].1);
        header.append("\"\r\nContent-Type: ");
        header.append(files[k].2);
        header.append("\r\n\r\n");
        extend_bytes(&mut body, header.as_str().as_bytes());
        extend_bytes(&mut body, files[k].3.as_slice());
        extend_bytes(&mut body, "\r\n".as_bytes());
        proof {
            assert(gs.take(k + 1).drop_last() =~= gs.take(k as int));
            assert(gs.take(k + 1).last() == gs[k as int]);
            assert(body@ =~= head + file_parts(boundary@, gs.take(k + 1)));
        }
        k = k + 1;
    }
    proof {
        assert(gs.take(gs.len() as int) =~= gs);
    }
    let mut end = "--".to_owned();
    end.append(boundary);
    end.append("--\r\n");
    extend_bytes(&mut body, end.as_str().as_bytes());
    body
}

/// A boundary as browsers make them: a fixed start and sixteen letters and digits.
pub open spec fn is_boundary(b: Seq<char>) -> bool {
    let start = "----WebKitFormBoundary"@;
    &&& b.len() == start.len() + 16
    &&& b.take(start.len() as int) == start
    &&& forall|i: int| start.len() <= i < b.len() ==> is_alnum(#[trigger] b[i])
}

/// A form body under a fresh random boundary, which is returned with it.
pub fn build_multipart(
    fields: &Vec<(&str, &str)>,
    files: &Vec<(&str, &str, &str, Vec<u8>)>,
) -> (r: (String, Vec<u8>))
    ensures
        is_boundary(r.0@),
        r.1@ == multipart_body(r.0@, field_models(fields@), file_models(files@)),
{
    let mut boundary = "----WebKitFormBoundary".to_owned();
    let tail = random_alnum(16);
    boundary.append(tail.as_str());
    proof {
        let start = "----WebKitFormBoundary"@;
        assert(boundary@.take(start.len() as int) =~= start);
        assert forall|i: int| start.len() <= i < boundary@.len() implies is_alnum(
            #[trigger] boundary@[i],
        ) by {
            assert(boundary@[i] == tail@[i - start.len()]);
        }
    }
    let body = multipart_with(boundary.as_str(), fields, files);
    (boundary, body)
}

/// The archive could not be written.
pub struct ZipFailure {
    pub cause: zip::result::ZipError,
}

/// Packs `content` into an archive with the one entry `log.txt`.
pub fn make_zip(content: &str) -> (r: Result<Vec<u8>, ZipFailure>)
    ensures
        match r {
            Ok(bytes) => zip_archive("log.txt"@, 6, encode_utf8(content@)) == Some(bytes@),
            Err(_) => zip_archive("log.txt"@, 6, encode_utf8(content@)) is None,
        },
        encode_utf8(content@).len() <= 0x4000_0000 ==> r is Ok,
{
    proof {
        reveal_strlit("log.txt");
        is_ascii_chars_encode_utf8("log.txt"@);
    }
    match zip_one("log.txt", 6, content.as_bytes()) {
        Ok(bytes) => Ok(bytes),
        Err(cause) => Err(ZipFailure { cause }),
    }
}

} // verus!
