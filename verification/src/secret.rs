//! The bytes of a secret: how they are held, framed and checked.
use vstd::prelude::*;
use vstd::string::*;
use vstd::utf8::*;

use crate::text::verdict;

verus! {

/// The size, in bytes, that a secret may have.
pub const MAX_SECRET_BYTES: usize = 64 * 1024;

/// The size, in bytes, of what a helper may write when no secret is expected.
pub const MAX_CHILD_OUTPUT_BYTES: usize = 64 * 1024;

/// The size, in bytes, of what a helper may write when a secret is expected: the
/// secret and its delimiter.
pub const MAX_PROVIDER_OUTPUT_BYTES: usize = MAX_SECRET_BYTES + 1;

/// Bytes that are wiped when they are dropped: a `zeroize::Zeroizing` vector. The
/// contracts speak of the bytes while they are held; that they are wiped
/// afterwards is the work of `zeroize` and is not stated.
#[verifier::external_body]
pub struct SecretBytes {
    inner: zeroize::Zeroizing<Vec<u8>>,
}

/// The bytes that a buffer holds.
pub uninterp spec fn held_bytes(buffer: SecretBytes) -> Seq<u8>;

impl View for SecretBytes {
    type V = Seq<u8>;

    open spec fn view(&self) -> Seq<u8> {
        held_bytes(*self)
    }
}

/// Puts bytes under wiping: `zeroize::Zeroizing::new`, which holds the value it
/// is given.
#[verifier::external_body]
fn wiped(bytes: Vec<u8>) -> (buffer: SecretBytes)
    ensures
        held_bytes(buffer) == bytes@,
{
    SecretBytes { inner: zeroize::Zeroizing::new(bytes) }
}

/// The bytes that are held, to be read: `Deref` of `zeroize::Zeroizing` gives the
/// value inside.
#[verifier::external_body]
fn bytes_of(buffer: &SecretBytes) -> (bytes: &Vec<u8>)
    ensures
        bytes@ == held_bytes(*buffer),
{
    &buffer.inner
}

/// The bytes that are held, to be changed: `DerefMut` of `zeroize::Zeroizing`
/// gives the value inside, and what is done to it is done to the buffer.
#[verifier::external_body]
fn bytes_of_mut(buffer: &mut SecretBytes) -> (bytes: &mut Vec<u8>)
    ensures
        bytes@ == held_bytes(*old(buffer)),
        held_bytes(*final(buffer)) == final(bytes)@,
{
    &mut buffer.inner
}

/// The error of `core::str::from_utf8`.
#[verifier::external_type_specification]
#[verifier::external_body]
pub struct ExUtf8Error(core::str::Utf8Error);

/// `core::str::from_utf8`: the text whose bytes are given, where they are the
/// bytes of a text.
pub assume_specification[ core::str::from_utf8 ](v: &[u8]) -> (result: Result<
    &str,
    core::str::Utf8Error,
>)
    ensures
        match result {
            Ok(text) => valid_utf8(v@) && text.spec_bytes() == v@,
            Err(_) => !valid_utf8(v@),
        },
;

impl SecretBytes {
    /// Takes bytes over. They are wiped when they are dropped.
    pub fn new(bytes: Vec<u8>) -> (buffer: SecretBytes)
        ensures
            buffer@ == bytes@,
    {
        wiped(bytes)
    }

    /// The bytes.
    pub fn as_slice(&self) -> (bytes: &[u8])
        ensures
            bytes@ == self@,
    {
        bytes_of(self).as_slice()
    }

    /// The number of bytes.
    pub fn len(&self) -> (n: usize)
        ensures
            n == self@.len(),
    {
        bytes_of(self).len()
    }
}

/// A line feed or a carriage return.
pub open spec fn line_end(byte: u8) -> bool {
    byte == 10 || byte == 13
}

/// What is wrong with a secret once its delimiter is off.
pub open spec fn unframed(body: Seq<u8>) -> Result<Seq<u8>, Seq<char>> {
    if body.len() == 0 {
        Err("empty secret is not accepted"@)
    } else if line_end(body.last()) {
        Err("secrets ending in CR or LF are unsupported"@)
    } else {
        Ok(body)
    }
}

/// The secret in what a prompt has written: all but the line feed at its end,
/// which has to be there.
pub open spec fn provider_secret(output: Seq<u8>) -> Result<Seq<u8>, Seq<char>> {
    if output.len() == 0 || output.last() != 10 {
        Err("secret provider framing is invalid"@)
    } else {
        unframed(output.drop_last())
    }
}

/// The secret in what the keyring has written: all but a line feed at its end,
/// if there is one.
pub open spec fn keyring_secret(output: Seq<u8>) -> Result<Seq<u8>, Seq<char>> {
    if output.len() > 0 && output.last() == 10 {
        unframed(output.drop_last())
    } else {
        unframed(output)
    }
}

fn check_unframed(buffer: SecretBytes) -> (result: Result<SecretBytes, String>)
    ensures
        match result {
            Ok(secret) => unframed(buffer@) == Ok::<Seq<u8>, Seq<char>>(secret@),
            Err(e) => unframed(buffer@) == Err::<Seq<u8>, Seq<char>>(e@),
        },
{
    let bytes = bytes_of(&buffer);
    let n: usize = bytes.len();
    if n == 0 {
        return Err("empty secret is not accepted".to_owned());
    }
    let last: u8 = bytes[n - 1];
    if last == 10 || last == 13 {
        return Err("secrets ending in CR or LF are unsupported".to_owned());
    }
    Ok(buffer)
}

/// Takes the delimiter off what a prompt has written.
pub fn normalize_provider_output(bytes: SecretBytes) -> (result: Result<SecretBytes, String>)
    ensures
        match result {
            Ok(secret) => provider_secret(bytes@) == Ok::<Seq<u8>, Seq<char>>(secret@),
            Err(e) => provider_secret(bytes@) == Err::<Seq<u8>, Seq<char>>(e@),
        },
{
    let mut buffer = bytes;
    let last = bytes_of_mut(&mut buffer).pop();
    match last {
        Some(10) => {
            assert(buffer@ =~= bytes@.drop_last());
            check_unframed(buffer)
        },
        _ => Err("secret provider framing is invalid".to_owned()),
    }
}

/// Takes the delimiter, if there is one, off what the keyring has written.
pub fn normalize_keyring_output(bytes: SecretBytes) -> (result: Result<SecretBytes, String>)
    ensures
        match result {
            Ok(secret) => keyring_secret(bytes@) == Ok::<Seq<u8>, Seq<char>>(secret@),
            Err(e) => keyring_secret(bytes@) == Err::<Seq<u8>, Seq<char>>(e@),
        },
{
    let n: usize = bytes.len();
    if n > 0 && bytes_of(&bytes)[n - 1] == 10 {
        let mut buffer = bytes;
        let _ = bytes_of_mut(&mut buffer).pop();
        assert(buffer@ =~= bytes@.drop_last());
        return check_unframed(buffer);
    }
    check_unframed(bytes)
}

/// What is wrong with a secret that is to be handed over in an environment
/// variable.
pub open spec fn environment_fault(secret: Seq<u8>) -> Option<Seq<char>> {
    if secret.len() > MAX_SECRET_BYTES {
        Some("secret exceeds the configured size limit"@)
    } else if !valid_utf8(secret) {
        Some("secret must be valid UTF-8 for environment handoff"@)
    } else if secret.contains(0) {
        Some("secret must not contain NUL bytes"@)
    } else {
        None
    }
}

/// Whether a secret can be handed over in an environment variable.
pub fn validate_secret_for_environment(secret: &[u8]) -> (result: Result<(), String>)
    ensures
        verdict(result, environment_fault(secret@)),
{
    let n: usize = secret.len();
    if n > MAX_SECRET_BYTES {
        return Err("secret exceeds the configured size limit".to_owned());
    }
    if core::str::from_utf8(secret).is_err() {
        return Err("secret must be valid UTF-8 for environment handoff".to_owned());
    }
    for i in 0..n
        invariant
            n == secret@.len(),
            n <= MAX_SECRET_BYTES,
            valid_utf8(secret@),
            forall|j: int| 0 <= j < i ==> secret@[j] != 0,
    {
        if secret[i] == 0 {
            assert(secret@.contains(0)) by {
                assert(secret@[i as int] == 0);
            }
            return Err("secret must not contain NUL bytes".to_owned());
        }
    }
    Ok(())
}

/// The text of a secret, to be put into an environment variable.
pub fn secret_text(secret: &SecretBytes) -> (result: Result<&str, String>)
    ensures
        match result {
            Ok(text) => valid_utf8(secret@) && text.spec_bytes() == secret@,
            Err(e) => !valid_utf8(secret@) && e@
                == "secret is not valid UTF-8 and cannot be placed in an environment variable"@,
        },
{
    match core::str::from_utf8(secret.as_slice()) {
        Ok(text) => Ok(text),
        Err(_) => Err(
            "secret is not valid UTF-8 and cannot be placed in an environment variable".to_owned(),
        ),
    }
}

/// What is looked up in the keyring: the secret, if it can be handed over.
pub fn accept_keyring_output(succeeded: bool, output: SecretBytes) -> (result: Result<
    SecretBytes,
    String,
>)
    ensures
        match result {
            Ok(secret) => succeeded && keyring_secret(output@) == Ok::<Seq<u8>, Seq<char>>(secret@)
                && environment_fault(secret@) is None,
            Err(e) => if !succeeded {
                e@ == "secret is not available in OS keyring"@
            } else {
                match keyring_secret(output@) {
                    Ok(secret) => environment_fault(secret) == Some(e@),
                    Err(told) => e@ == told,
                }
            },
        },
{
    if !succeeded {
        return Err("secret is not available in OS keyring".to_owned());
    }
    match normalize_keyring_output(output) {
        Err(e) => Err(e),
        Ok(secret) => match validate_secret_for_environment(secret.as_slice()) {
            Err(e) => Err(e),
            Ok(_) => Ok(secret),
        },
    }
}

/// What the user has entered: the secret, if the prompt ended well.
pub fn accept_prompt_output(succeeded: bool, output: SecretBytes) -> (result: Result<
    SecretBytes,
    String,
>)
    ensures
        match result {
            Ok(secret) => succeeded && provider_secret(output@) == Ok::<Seq<u8>, Seq<char>>(secret@),
            Err(e) => if !succeeded {
                e@ == "secret entry was cancelled or the GUI prompt failed"@
            } else {
                provider_secret(output@) == Err::<Seq<u8>, Seq<char>>(e@)
            },
        },
{
    if !succeeded {
        return Err("secret entry was cancelled or the GUI prompt failed".to_owned());
    }
    normalize_provider_output(output)
}

/// Adds what a helper has written, up to a limit.
pub fn append_child_output(output: &mut SecretBytes, chunk: &[u8], limit: usize) -> (result: Result<
    (),
    String,
>)
    ensures
        match result {
            Ok(_) => old(output)@.len() + chunk@.len() <= limit && final(output)@ == old(output)@
                + chunk@,
            Err(e) => old(output)@.len() + chunk@.len() > limit && final(output)@ == old(output)@
                && e@ == "child output exceeded the configured limit"@,
        },
{
    let n: usize = output.len();
    let more: usize = chunk.len();
    if n > limit || more > limit - n {
        return Err("child output exceeded the configured limit".to_owned());
    }
    bytes_of_mut(output).extend_from_slice(chunk);
    assert(output@ =~= old(output)@ + chunk@);
    Ok(())
}

/// A delimiter is taken off exactly once: what is accepted of a prompt is the
/// output without its last byte, and ends in no further one.
pub proof fn law_delimiter_is_removed_once(secret: Seq<u8>)
    requires
        secret.len() > 0,
        !line_end(secret.last()),
    ensures
        provider_secret(secret.push(10)) == Ok::<Seq<u8>, Seq<char>>(secret),
        keyring_secret(secret.push(10)) == Ok::<Seq<u8>, Seq<char>>(secret),
        keyring_secret(secret) == Ok::<Seq<u8>, Seq<char>>(secret),
        provider_secret(secret) is Err,
        provider_secret(secret.push(10).push(10)) is Err,
        keyring_secret(secret.push(10).push(10)) is Err,
        provider_secret(secret.push(13).push(10)) is Err,
{
    assert(secret.push(10).drop_last() =~= secret);
    assert(secret.push(10).push(10).drop_last() =~= secret.push(10));
    assert(secret.push(13).push(10).drop_last() =~= secret.push(13));
}

/// What the keyring gives back of a secret that a prompt has accepted is that
/// secret, with or without the line feed that the keyring may add.
pub proof fn law_keyring_gives_back_what_was_entered(output: Seq<u8>, secret: Seq<u8>)
    requires
        provider_secret(output) == Ok::<Seq<u8>, Seq<char>>(secret),
    ensures
        keyring_secret(secret) == Ok::<Seq<u8>, Seq<char>>(secret),
        keyring_secret(secret.push(10)) == Ok::<Seq<u8>, Seq<char>>(secret),
{
    law_delimiter_is_removed_once(secret);
}

/// A secret that is accepted is a text of at most the allowed size, without NUL,
/// and its text in an environment variable is those very bytes.
pub proof fn law_accepted_secrets_are_texts(secret: Seq<u8>)
    requires
        environment_fault(secret) is None,
    ensures
        secret.len() <= MAX_SECRET_BYTES,
        valid_utf8(secret),
        !secret.contains(0),
        encode_utf8(decode_utf8(secret)) == secret,
{
    decode_utf8_encode_utf8(secret);
}

/// Bytes that are held are those that were put there, and what a helper writes is added to
/// them exactly as long as the limit is kept; else nothing of it is taken.
pub proof fn law_bytes_are_held_up_to_their_limit(
    bytes: Vec<u8>,
    held: SecretBytes,
    seen: &[u8],
    n: usize,
    chunk: &[u8],
    limit: usize,
    result: Result<(), String>,
)
    requires
        call_ensures(SecretBytes::new, (bytes,), held),
        call_ensures(SecretBytes::as_slice, (&held,), seen),
        call_ensures(SecretBytes::len, (&held,), n),
    ensures
        seen@ == bytes@,
        n == bytes@.len(),
        forall|output: &mut SecretBytes| #[trigger]
            call_ensures(append_child_output, (output, chunk, limit), result) ==> {
                let fits = output@.len() + chunk@.len() <= limit;
                &&& result is Ok <==> fits
                &&& fits ==> final(output)@ == output@ + chunk@
                &&& !fits ==> final(output)@ == output@ && result->Err_0@
                    == "child output exceeded the configured limit"@
            },
        MAX_SECRET_BYTES == 65_536,
        MAX_CHILD_OUTPUT_BYTES == 65_536,
        MAX_PROVIDER_OUTPUT_BYTES == 65_537,
{
}

/// A frame is taken off what a prompt and what the keyring have written: of a prompt the
/// line feed has to be there, of the keyring it may be; what is left is a secret exactly
/// if there is something and its last byte ends no line.
pub proof fn law_frames_are_taken_off(
    bytes: SecretBytes,
    prompt: Result<SecretBytes, String>,
    keyring: Result<SecretBytes, String>,
    secret: &SecretBytes,
    text: Result<&str, String>,
)
    requires
        call_ensures(normalize_provider_output, (bytes,), prompt),
        call_ensures(normalize_keyring_output, (bytes,), keyring),
        call_ensures(secret_text, (secret,), text),
    ensures
        ({
            let framed = bytes@.len() > 0 && bytes@.last() == 10;
            let body = if framed {
                bytes@.drop_last()
            } else {
                bytes@
            };
            let proper = body.len() > 0 && body.last() != 10 && body.last() != 13;
            let fault = if body.len() == 0 {
                "empty secret is not accepted"@
            } else {
                "secrets ending in CR or LF are unsupported"@
            };
            &&& prompt is Ok <==> framed && proper
            &&& prompt matches Ok(taken) ==> taken@ == body
            &&& prompt matches Err(e) ==> e@ == if framed {
                fault
            } else {
                "secret provider framing is invalid"@
            }
            &&& keyring is Ok <==> proper
            &&& keyring matches Ok(taken) ==> taken@ == body
            &&& keyring matches Err(e) ==> e@ == fault
        }),
        text is Ok <==> valid_utf8(secret@),
        text matches Ok(t) ==> t.spec_bytes() == secret@,
        text matches Err(e) ==> e@
            == "secret is not valid UTF-8 and cannot be placed in an environment variable"@,
{
}

} // verus!
