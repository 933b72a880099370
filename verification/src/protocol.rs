//! The wire protocol's fixed texts and response shapes: the banner, the
//! acknowledgement literals, the set-note identifier template, the listing
//! format and the help text, with one builder per command and one parser or
//! check per response.

use vstd::prelude::*;

verus! {

use crate::codec::{
    find_byte_from, find_pattern_from, first_pattern_end_from, has_pattern_from,
    lemma_first_pattern_end_unique, lemma_read_well_formed_response, lemma_scan_stop_unique,
    match_at, push_all, scan_stop_at, subvec,
};
use crate::fault::Fault;
use vstd::string::StrSliceExecFns;
use vstd::string::StringSliceAdditionalSpecFns;

/// The 3-byte prompt marker — newline, `>`, space — that terminates every
/// response of the target.
pub open spec fn prompt_bytes() -> Seq<u8> {
    seq![10u8, 62u8, 32u8]
}

pub fn prompt() -> (r: Vec<u8>)
    ensures
        r@ == prompt_bytes(),
{
    let mut r: Vec<u8> = Vec::new();
    r.push(10u8);
    r.push(62u8);
    r.push(32u8);
    proof {
        assert(r@ =~= prompt_bytes());
    }
    r
}

/// The fixed welcome banner the target must send on connect, prompt marker
/// included.
pub open spec fn banner_bytes() -> Seq<u8> {
    "Welcome to the 1337 n0t3b00k!\n> ".spec_bytes()
}

pub fn banner() -> (r: Vec<u8>)
    ensures
        r@ == banner_bytes(),
{
    "Welcome to the 1337 n0t3b00k!\n> ".as_bytes_vec()
}

/// The exact response body acknowledging a registration.
pub open spec fn registration_success_bytes() -> Seq<u8> {
    "User successfully registered".spec_bytes()
}

pub fn registration_success() -> (r: Vec<u8>)
    ensures
        r@ == registration_success_bytes(),
{
    "User successfully registered".as_bytes_vec()
}

/// The exact response body acknowledging a login.
pub open spec fn login_success_bytes() -> Seq<u8> {
    "Successfully logged in!".spec_bytes()
}

pub fn login_success() -> (r: Vec<u8>)
    ensures
        r@ == login_success_bytes(),
{
    "Successfully logged in!".as_bytes_vec()
}

/// The template prefix announcing a stored note's identifier.
pub open spec fn set_note_template() -> Seq<u8> {
    "Note saved! ID is ".spec_bytes()
}

/// The fixed help text the target must return, in any authentication state.
pub open spec fn help_text_bytes() -> Seq<u8> {
    "\nThis is a notebook service. Commands:\nreg USER PW - Register new account\nlog USER PW - Login to account\nset TEXT..... - Set a note\nuser  - List all users\nlist - List all notes\nexit - Exit!\ndump - Dump the database\nget ID".spec_bytes()
}

pub fn help_text() -> (r: Vec<u8>)
    ensures
        r@ == help_text_bytes(),
{
    "\nThis is a notebook service. Commands:\nreg USER PW - Register new account\nlog USER PW - Login to account\nset TEXT..... - Set a note\nuser  - List all users\nlist - List all notes\nexit - Exit!\ndump - Dump the database\nget ID".as_bytes_vec()
}

/// True when the text holds no line terminator: the protocol has no
/// escaping, so text carrying one cannot stand in a single command. Keeping
/// it out is the caller's responsibility, stated here once.
pub open spec fn terminator_free(s: Seq<u8>) -> bool {
    forall|i: int| 0 <= i < s.len() ==> s[i] != 10u8
}

/// The `<label>: <value>` separator of listing lines.
pub open spec fn separator_bytes() -> Seq<u8> {
    seq![58u8, 32u8]
}

/// True when the two byte strings hold the same bytes.
pub fn bytes_eq(a: &Vec<u8>, b: &Vec<u8>) -> (r: bool)
    ensures
        r == (a@ == b@),
{
    if a.len() != b.len() {
        return false;
    }
    let mut i: usize = 0;
    while i < a.len()
        invariant
            a@.len() == b@.len(),
            i <= a@.len(),
            forall|j: int| 0 <= j < i ==> a@[j] == b@[j],
        decreases a@.len() - i,
    {
        if a[i] != b[i] {
            return false;
        }
        i += 1;
    }
    proof {
        assert(a@ =~= b@);
    }
    true
}

/// The unframed registration command, `reg <user> <pass>`.
pub open spec fn register_line(u: Seq<u8>, p: Seq<u8>) -> Seq<u8> {
    "reg ".spec_bytes() + u + seq![32u8] + p
}

pub fn build_register(username: &Vec<u8>, password: &Vec<u8>) -> (r: Vec<u8>)
    ensures
        r@ == register_line(username@, password@),
{
    let mut r = "reg ".as_bytes_vec();
    push_all(&mut r, username);
    r.push(32u8);
    push_all(&mut r, password);
    proof {
        assert(r@ =~= register_line(username@, password@));
    }
    r
}

/// The unframed login command, `log <user> <pass>`.
pub open spec fn login_line(u: Seq<u8>, p: Seq<u8>) -> Seq<u8> {
    "log ".spec_bytes() + u + seq![32u8] + p
}

pub fn build_login(username: &Vec<u8>, password: &Vec<u8>) -> (r: Vec<u8>)
    ensures
        r@ == login_line(username@, password@),
{
    let mut r = "log ".as_bytes_vec();
    push_all(&mut r, username);
    r.push(32u8);
    push_all(&mut r, password);
    proof {
        assert(r@ =~= login_line(username@, password@));
    }
    r
}

/// The unframed store command, `set <text>`.
pub open spec fn set_note_line(text: Seq<u8>) -> Seq<u8> {
    "set ".spec_bytes() + text
}

pub fn build_set_note(text: &Vec<u8>) -> (r: Vec<u8>)
    ensures
        r@ == set_note_line(text@),
{
    let mut r = "set ".as_bytes_vec();
    push_all(&mut r, text);
    r
}

/// The unframed fetch command, `get <id>`.
pub open spec fn get_note_line(id: Seq<u8>) -> Seq<u8> {
    "get ".spec_bytes() + id
}

pub fn build_get_note(id: &Vec<u8>) -> (r: Vec<u8>)
    ensures
        r@ == get_note_line(id@),
{
    let mut r = "get ".as_bytes_vec();
    push_all(&mut r, id);
    r
}

/// The unframed note-listing command.
pub open spec fn list_notes_line() -> Seq<u8> {
    "list".spec_bytes()
}

pub fn build_list_notes() -> (r: Vec<u8>)
    ensures
        r@ == list_notes_line(),
{
    "list".as_bytes_vec()
}

/// The unframed user-listing command.
pub open spec fn list_users_line() -> Seq<u8> {
    "user".spec_bytes()
}

pub fn build_list_users() -> (r: Vec<u8>)
    ensures
        r@ == list_users_line(),
{
    "user".as_bytes_vec()
}

/// The unframed help command.
pub open spec fn help_line() -> Seq<u8> {
    "help".spec_bytes()
}

pub fn build_help() -> (r: Vec<u8>)
    ensures
        r@ == help_line(),
{
    "help".as_bytes_vec()
}

/// A freshly opened connection is only usable when the banner it sent equals
/// the expected banner byte for byte.
pub fn check_banner(bytes: &Vec<u8>) -> (r: Result<(), Fault>)
    ensures
        r is Ok <==> bytes@ == banner_bytes(),
        r matches Err(f) ==> f matches Fault::ProtocolFault(m) && m@ == "unexpected banner"@,
{
    let expected = banner();
    if bytes_eq(bytes, &expected) {
        Ok(())
    } else {
        Err(Fault::ProtocolFault("unexpected banner"))
    }
}

/// A registration succeeded only on the exact literal acknowledgement.
pub fn parse_register_response(body: &Vec<u8>) -> (r: Result<(), Fault>)
    ensures
        r is Ok <==> body@ == registration_success_bytes(),
        r matches Err(f) ==> f matches Fault::ProtocolFault(m) && m@ == "registration rejected"@,
{
    let expected = registration_success();
    if bytes_eq(body, &expected) {
        Ok(())
    } else {
        Err(Fault::ProtocolFault("registration rejected"))
    }
}

/// A login succeeded only on the exact literal acknowledgement.
pub fn parse_login_response(body: &Vec<u8>) -> (r: Result<(), Fault>)
    ensures
        r is Ok <==> body@ == login_success_bytes(),
        r matches Err(f) ==> f matches Fault::ProtocolFault(m) && m@ == "login rejected"@,
{
    let expected = login_success();
    if bytes_eq(body, &expected) {
        Ok(())
    } else {
        Err(Fault::ProtocolFault("login rejected"))
    }
}

/// The help text must be matched exactly; a deviation is a functional bug of
/// the target, not a wire-protocol violation.
pub fn check_help(body: &Vec<u8>) -> (r: Result<(), Fault>)
    ensures
        r is Ok <==> body@ == help_text_bytes(),
        r matches Err(f) ==> f matches Fault::VerificationFault(m) && m@ == "help text mismatch"@,
{
    let expected = help_text();
    if bytes_eq(body, &expected) {
        Ok(())
    } else {
        Err(Fault::VerificationFault("help text mismatch"))
    }
}

/// The identifier a set-note response carries: the bytes standing between the
/// first occurrence of the template prefix and the next `!` (or the body's
/// end). `e` and `f` name those two positions.
pub open spec fn set_note_id_at(body: Seq<u8>, e: int, f: int, id: Seq<u8>) -> bool {
    &&& first_pattern_end_from(body, set_note_template(), 0, e)
    &&& scan_stop_at(body, e, 33u8, f)
    &&& id == body.subrange(e, f)
}

/// The identifier the set-note response carries, as a function of the body
/// alone: the bytes between the first occurrence of the template prefix and
/// the next `!` (or the body's end). Meaningful only when the template prefix
/// occurs in the body.
pub open spec fn set_note_id_of(body: Seq<u8>) -> Seq<u8> {
    let e = choose|e: int| #[trigger] first_pattern_end_from(body, set_note_template(), 0, e);
    let f = choose|f: int| #[trigger] scan_stop_at(body, e, 33u8, f);
    body.subrange(e, f)
}

/// The position pair of one body is unique, so the relational facts pin the
/// extracted identifier to `set_note_id_of`.
pub proof fn lemma_set_note_id_pins(body: Seq<u8>, e: int, f: int, id: Seq<u8>)
    requires
        set_note_id_at(body, e, f, id),
    ensures
        id == set_note_id_of(body),
{
    assert(first_pattern_end_from(body, set_note_template(), 0, e));
    let e2 = choose|e2: int| #[trigger] first_pattern_end_from(body, set_note_template(), 0, e2);
    lemma_first_pattern_end_unique(body, set_note_template(), 0, e, e2);
    assert(scan_stop_at(body, e2, 33u8, f));
    let f2 = choose|f2: int| #[trigger] scan_stop_at(body, e2, 33u8, f2);
    lemma_scan_stop_unique(body, e2, 33u8, f, f2);
}

/// Extract the stored note's identifier from the set-note response template
/// `Note saved! ID is <id>!`. Fails exactly when the template prefix does not
/// occur in the body.
pub fn parse_set_note_response(body: &Vec<u8>) -> (r: Result<Vec<u8>, Fault>)
    ensures
        r is Ok <==> has_pattern_from(body@, set_note_template(), 0),
        match r {
            Ok(id) => id@ == set_note_id_of(body@),
            Err(fl) => fl matches Fault::ProtocolFault(m) && m@ == "unexpected set-note response"@,
        },
{
    let template = "Note saved! ID is ".as_bytes_vec();
    match find_pattern_from(body, &template, 0) {
        Some(e) => {
            let f = find_byte_from(body, e, 33u8);
            let id = subvec(body, e, f);
            proof {
                assert(set_note_id_at(body@, e as int, f as int, id@));
                lemma_set_note_id_pins(body@, e as int, f as int, id@);
            }
            Ok(id)
        },
        None => Err(Fault::ProtocolFault("unexpected set-note response")),
    }
}

/// Law: a response built from the template — the prefix, then an identifier
/// free of `!`, then `!` and anything further — parses back to exactly that
/// identifier.
pub proof fn lemma_set_note_template_roundtrip(id: Seq<u8>, rest: Seq<u8>)
    requires
        forall|i: int| 0 <= i < id.len() ==> id[i] != 33u8,
    ensures
        ({
            let body = set_note_template() + id + seq![33u8] + rest;
            &&& has_pattern_from(body, set_note_template(), 0)
            &&& set_note_id_of(body) == id
        }),
{
    let t = set_note_template();
    let body = t + id + seq![33u8] + rest;
    let e = t.len() as int;
    let f = e + id.len();
    assert(body.subrange(e - t.len(), e) =~= t);
    assert(forall|j: int| e <= j < f ==> body[j] == id[j - e]);
    assert(body[f] == 33u8);
    assert(body.subrange(e, f) =~= id);
    assert(set_note_id_at(body, e, f, id));
    lemma_set_note_id_pins(body, e, f, id);
}


/// The views of a sequence of byte vectors.
pub open spec fn views_of(l: Seq<Vec<u8>>) -> Seq<Seq<u8>> {
    l.map_values(|v: Vec<u8>| v@)
}

/// The value a listing line contributes: the second field of the line split
/// on the `": "` separator — the bytes between the first occurrence of the
/// separator and the next one (or the line's end) — or nothing when the line
/// holds no separator at all.
pub open spec fn listing_field(line: Seq<u8>) -> Option<Seq<u8>> {
    if has_pattern_from(line, separator_bytes(), 0) {
        let e = choose|e: int| #[trigger] first_pattern_end_from(line, separator_bytes(), 0, e);
        let f = if has_pattern_from(line, separator_bytes(), e) {
            (choose|f: int| #[trigger] first_pattern_end_from(line, separator_bytes(), e, f))
                - separator_bytes().len()
        } else {
            line.len() as int
        };
        Some(line.subrange(e, f))
    } else {
        None
    }
}

/// The entries one line contributes to a listing: one or none.
pub open spec fn field_entries(f: Option<Seq<u8>>) -> Seq<Seq<u8>> {
    match f {
        Some(x) => seq![x],
        None => Seq::empty(),
    }
}

/// The parsed form of a whole listing response: the body split into lines on
/// the newline byte, each line contributing its `listing_field`, lines
/// without a separator silently skipped, in response order.
pub open spec fn listing_entries(s: Seq<u8>) -> Seq<Seq<u8>>
    decreases s.len(),
{
    let i = choose|i: int| #[trigger] scan_stop_at(s, 0, 10u8, i);
    if 0 <= i < s.len() && s[i] == 10u8 {
        field_entries(listing_field(s.subrange(0, i))) + listing_entries(
            s.subrange(i + 1, s.len() as int),
        )
    } else {
        field_entries(listing_field(s))
    }
}

/// Extract one listing line's value, if the line carries the separator.
pub fn parse_listing_field(line: &Vec<u8>) -> (r: Option<Vec<u8>>)
    ensures
        r is Some <==> listing_field(line@) is Some,
        r matches Some(v) ==> listing_field(line@) == Some(v@),
{
    let mut sep: Vec<u8> = Vec::new();
    sep.push(58u8);
    sep.push(32u8);
    proof {
        assert(sep@ =~= separator_bytes());
    }
    match find_pattern_from(line, &sep, 0) {
        Some(e) => {
            let second = find_pattern_from(line, &sep, e);
            let f: usize = match second {
                Some(e2) => e2 - 2,
                None => line.len(),
            };
            proof {
                let ce = choose|x: int|
                    #[trigger] first_pattern_end_from(line@, separator_bytes(), 0, x);
                lemma_first_pattern_end_unique(line@, separator_bytes(), 0, e as int, ce);
                match second {
                    Some(e2) => {
                        let cf = choose|x: int|
                            #[trigger] first_pattern_end_from(line@, separator_bytes(), e as int, x);
                        lemma_first_pattern_end_unique(
                            line@,
                            separator_bytes(),
                            e as int,
                            e2 as int,
                            cf,
                        );
                    },
                    None => {},
                }
            }
            Some(subvec(line, e, f))
        },
        None => None,
    }
}

fn parse_listing_from(body: &Vec<u8>, pos: usize, out: &mut Vec<Vec<u8>>)
    requires
        pos <= body@.len(),
    ensures
        views_of(final(out)@) == views_of(old(out)@) + listing_entries(
            body@.subrange(pos as int, body@.len() as int),
        ),
    decreases body@.len() - pos,
{
    let ghost suffix = body@.subrange(pos as int, body@.len() as int);
    let i = find_byte_from(body, pos, 10u8);
    let line = subvec(body, pos, i);
    proof {
        assert(scan_stop_at(suffix, 0, 10u8, i - pos)) by {
            assert(forall|j: int| 0 <= j < suffix.len() ==> suffix[j] == body@[pos + j]);
        }
        let ci = choose|x: int| #[trigger] scan_stop_at(suffix, 0, 10u8, x);
        lemma_scan_stop_unique(suffix, 0, 10u8, i - pos, ci);
        assert(line@ =~= suffix.subrange(0, i - pos));
    }
    let field = parse_listing_field(&line);
    let ghost mid = out@;
    match field {
        Some(v) => {
            let ghost vv = v@;
            out.push(v);
            proof {
                assert(views_of(out@) =~= views_of(mid).push(vv));
                assert(views_of(mid).push(vv) =~= views_of(mid) + field_entries(
                    listing_field(line@),
                ));
            }
        },
        None => {
            proof {
                assert(views_of(out@) =~= views_of(mid) + field_entries(listing_field(line@)));
            }
        },
    }
    let ghost mid2 = out@;
    if i < body.len() {
        parse_listing_from(body, i + 1, out);
        proof {
            assert(body@.subrange(i + 1, body@.len() as int) =~= suffix.subrange(
                i - pos + 1,
                suffix.len() as int,
            ));
            assert(line@ =~= suffix.subrange(0, i - pos));
            assert(listing_entries(suffix) == field_entries(listing_field(suffix.subrange(0, i - pos)))
                + listing_entries(suffix.subrange(i - pos + 1, suffix.len() as int)));
            assert(views_of(out@) =~= views_of(old(out)@) + listing_entries(suffix));
        }
    } else {
        proof {
            assert(line@ =~= suffix);
            assert(listing_entries(suffix) == field_entries(listing_field(suffix)));
            assert(views_of(out@) =~= views_of(old(out)@) + listing_entries(suffix));
        }
    }
}

/// Parse a listing response: one entry per line holding the separator, in
/// response order.
pub fn parse_listing(body: &Vec<u8>) -> (r: Vec<Vec<u8>>)
    ensures
        views_of(r@) == listing_entries(body@),
{
    let mut out: Vec<Vec<u8>> = Vec::new();
    parse_listing_from(body, 0, &mut out);
    proof {
        assert(body@.subrange(0, body@.len() as int) =~= body@);
        assert(views_of(out@) =~= listing_entries(body@));
    }
    out
}

/// True when some entry of the listing equals `x` byte for byte.
pub fn contains_entry(list: &Vec<Vec<u8>>, x: &Vec<u8>) -> (r: bool)
    ensures
        r == views_of(list@).contains(x@),
{
    let mut i: usize = 0;
    while i < list.len()
        invariant
            i <= list@.len(),
            forall|j: int| 0 <= j < i ==> views_of(list@)[j] != x@,
        decreases list@.len() - i,
    {
        if bytes_eq(&list[i], x) {
            proof {
                assert(views_of(list@)[i as int] == x@);
            }
            return true;
        }
        i += 1;
    }
    proof {
        assert(!views_of(list@).contains(x@)) by {
            if views_of(list@).contains(x@) {
                let j = choose|j: int|
                    0 <= j < views_of(list@).len() && views_of(list@)[j] == x@;
                assert(false);
            }
        }
    }
    false
}

/// Law: listing twice in a row without intervening writes is idempotent. The
/// parse is a function of the response bytes alone and the listing exchange
/// leaves the engine's state untouched, so a target that answers two
/// back-to-back reads with the same bytes yields the same entry sequence both
/// times.
pub proof fn lemma_listing_idempotent(first: Seq<u8>, second: Seq<u8>)
    requires
        first == second,
    ensures
        listing_entries(first) == listing_entries(second),
{
}


/// Law: a full plant-and-fetch round trip preserves the content byte for
/// byte. A conforming target answers the store command `set <content>` with
/// the identifier template and later answers `get <id>` with exactly the
/// stored bytes followed by the prompt marker. This states the engine's
/// half of that loop: from the template response the engine extracts exactly
/// the announced identifier, and the fetch response stream — the content,
/// marker-free, with the marker at its end — is consumed whole and handed
/// back unchanged, so the comparison against the planted content succeeds.
/// `out` and `consumed` are what `read_until_delimiter` ensures of its
/// result on the fetch stream.
pub proof fn lemma_round_trip(
    content: Seq<u8>,
    id: Seq<u8>,
    tail: Seq<u8>,
    out: Seq<u8>,
    consumed: int,
)
    requires
        forall|i: int| 0 <= i < id.len() ==> id[i] != 33u8,
        forall|j: int|
            j < content.len() + prompt_bytes().len() ==> !match_at(
                content + prompt_bytes(),
                prompt_bytes(),
                j,
            ),
        first_pattern_end_from(content + prompt_bytes(), prompt_bytes(), 0, consumed),
        out == (content + prompt_bytes()).subrange(0, consumed - prompt_bytes().len()),
    ensures
        set_note_id_of(set_note_template() + id + seq![33u8] + tail) == id,
        out == content,
        consumed == content.len() + prompt_bytes().len(),
{
    lemma_set_note_template_roundtrip(id, tail);
    lemma_read_well_formed_response(content, prompt_bytes(), out, consumed);
}

} // verus!
