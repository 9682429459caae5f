//! The key-generation command: its argument vector, the validation that
//! precedes a spawn, and the classification of everything the command
//! prints on its terminal.

use vstd::prelude::*;
use vstd::string::StrSliceExecFns;
use vstd::string::StringExecFns;

use crate::events::messages::{msgs_view, Message, MessageV};
use crate::model::sections_state::public_keys_list_state::NewPublicKeyState;

verus! {

/// The key types the application can generate.
#[derive(Clone, Copy, PartialEq, Eq, Structural, Debug)]
pub enum PublicKeyType {
    ED25519,
}

impl Default for PublicKeyType {
    /// The only key type offered so far.
    fn default() -> (r: Self)
        ensures
            r == PublicKeyType::ED25519,
    {
        PublicKeyType::ED25519
    }
}

impl PublicKeyType {
    /// The name of the key type as the key generator's `-t` flag takes it.
    pub fn type_arg(&self) -> (r: &'static str)
        ensures
            *self == PublicKeyType::ED25519 ==> r@ == "ed25519"@,
    {
        match self {
            PublicKeyType::ED25519 => "ed25519",
        }
    }
}

/// The request for one key-generation run: key type, file name and
/// comment.
pub struct SshKeygenCmd {
    keytype: PublicKeyType,
    filename: String,
    comment: String,
}

/// Mathematical image of a [`SshKeygenCmd`].
#[verifier::ext_equal]
pub struct SshKeygenCmdV {
    pub keytype: PublicKeyType,
    pub filename: Seq<char>,
    pub comment: Seq<char>,
}

impl View for SshKeygenCmd {
    type V = SshKeygenCmdV;

    closed spec fn view(&self) -> SshKeygenCmdV {
        SshKeygenCmdV {
            keytype: self.keytype,
            filename: self.filename@,
            comment: self.comment@,
        }
    }
}

/// The argument vector `start` hands to the key generator, with the key
/// file placed under `ssh_dir`.
pub open spec fn spec_keygen_args(
    keytype_arg: Seq<char>,
    filename: Seq<char>,
    comment: Seq<char>,
    ssh_dir: Seq<char>,
) -> Seq<Seq<char>> {
    seq![
        "-t"@,
        keytype_arg,
        "-f"@,
        ssh_dir + "/"@ + filename,
        "-C"@,
        comment,
    ]
}

impl SshKeygenCmd {
    /// Captures the request fields from the new-key form.
    pub fn new(state: &NewPublicKeyState) -> (r: Self)
        ensures
            r@ == (SshKeygenCmdV {
                keytype: state@.key_type,
                filename: state@.name,
                comment: state@.comment,
            }),
    {
        SshKeygenCmd {
            keytype: state.get_type(),
            filename: state.get_name().to_owned(),
            comment: state.get_comment().to_owned(),
        }
    }

    /// The argument vector for this request: `-t <keytype> -f
    /// <path-under-ssh-dir> -C <comment>`.
    pub fn args(&self, ssh_dir: &String) -> (r: Vec<String>)
        ensures
            crate::utils::files::views_of(r@) == spec_keygen_args(
                "ed25519"@,
                self@.filename,
                self@.comment,
                ssh_dir@,
            ),
    {
        let path = crate::utils::files::join_path(ssh_dir, &self.filename);
        let mut args: Vec<String> = Vec::new();
        args.push("-t".to_owned());
        args.push(self.keytype.type_arg().to_owned());
        args.push("-f".to_owned());
        args.push(path);
        args.push("-C".to_owned());
        args.push(self.comment.clone());
        proof {
            assert(crate::utils::files::views_of(args@) =~= spec_keygen_args(
                "ed25519"@,
                self@.filename,
                self@.comment,
                ssh_dir@,
            ));
        }
        args
    }

    /// Prepares the start of one key-generation run. A request whose file
    /// name is the reserved name of the configuration file is rejected and
    /// nothing may be spawned for it; any other request yields the exact
    /// argument vector to spawn the key generator with.
    pub fn start(new_key: &NewPublicKeyState, ssh_dir: &String) -> (r: Result<Vec<String>, String>)
        ensures
            new_key@.name == "config"@ <==> r is Err,
            r matches Err(e) ==> e@ == "the name 'config' is reserved to the config file"@,
            r matches Ok(args) ==> crate::utils::files::views_of(args@) == spec_keygen_args(
                "ed25519"@,
                new_key@.name,
                new_key@.comment,
                ssh_dir@,
            ),
    {
        if let Result::Err(e) = new_key.validate_name() {
            return Result::Err(e);
        }
        let cmd = SshKeygenCmd::new(new_key);
        Result::Ok(cmd.args(ssh_dir))
    }
}

/// Whether `needle` occurs contiguously inside `hay`.
pub open spec fn contains_sub(hay: Seq<u8>, needle: Seq<u8>) -> bool {
    exists|i: int|
        0 <= i && i + needle.len() <= hay.len() && #[trigger] hay.subrange(i, i + needle.len())
            == needle
}

/// Searches `hay` for an occurrence of `needle`.
pub fn contains_bytes(hay: &Vec<u8>, needle: &Vec<u8>) -> (r: bool)
    ensures
        r == contains_sub(hay@, needle@),
{
    let n = needle.len();
    let h = hay.len();
    if n > h {
        proof {
            assert(!contains_sub(hay@, needle@)) by {
                if contains_sub(hay@, needle@) {
                    let k = choose|k: int|
                        0 <= k && k + needle@.len() <= hay@.len() && #[trigger] hay@.subrange(
                            k,
                            k + needle@.len(),
                        ) == needle@;
                }
            }
        }
        return false;
    }
    if n == 0 {
        proof {
            assert(hay@.subrange(0int, 0int + needle@.len() as int) =~= needle@);
            assert(contains_sub(hay@, needle@));
        }
        return true;
    }
    let mut i: usize = 0;
    while i <= h - n
        invariant
            h == hay@.len(),
            n == needle@.len(),
            1 <= n <= h,
            i <= h - n + 1,
            forall|k: int| 0 <= k < i ==> #[trigger] hay@.subrange(k, k + n as int) != needle@,
        decreases h - i,
    {
        let mut j: usize = 0;
        let mut mismatch = false;
        while j < n
            invariant_except_break
                !mismatch,
            invariant
                h == hay@.len(),
                n == needle@.len(),
                i + n <= h,
                j <= n,
                !mismatch ==> forall|t: int| 0 <= t < j ==> hay@[i + t] == needle@[t],
            ensures
                mismatch ==> hay@.subrange(i as int, i + n as int) != needle@,
                !mismatch ==> forall|t: int| 0 <= t < n ==> hay@[i + t] == needle@[t],
            decreases n - j,
        {
            if hay[i + j] != needle[j] {
                proof {
                    assert(hay@.subrange(i as int, i + n as int)[j as int] == hay@[i + j]);
                }
                mismatch = true;
                break;
            }
            j = j + 1;
        }
        if !mismatch {
            proof {
                assert(hay@.subrange(i as int, i + n as int) =~= needle@);
            }
            return true;
        }
        i = i + 1;
    }
    proof {
        assert(!contains_sub(hay@, needle@)) by {
            if contains_sub(hay@, needle@) {
                let k = choose|k: int|
                    0 <= k && k + needle@.len() <= hay@.len() && #[trigger] hay@.subrange(
                        k,
                        k + needle@.len(),
                    ) == needle@;
                assert(k < i);
            }
        }
    }
    false
}

/// The classes the supervisor sorts command output into, by
/// first-match-wins over the ordered prompt patterns.
#[derive(Clone, Copy, PartialEq, Eq, Structural, Debug)]
pub enum OutputClass {
    /// The command asks for a passphrase.
    PassphrasePrompt,
    /// The command asks for the passphrase again.
    ConfirmPassphrasePrompt,
    /// The command reports the key as saved.
    Success,
    /// The command warns that the key file already exists.
    KeyExists,
    /// The command cannot reach the target directory.
    NoSuchDir,
    /// Anything else: incidental output.
    Other,
}

/// Classifies one chunk of command output by the first matching pattern
/// of the ordered list; a chunk that contains both the "already exists"
/// and the "saved in" text therefore classifies as a success.
pub open spec fn spec_classify(buf: Seq<u8>) -> OutputClass {
    if contains_sub(buf, vstd::utf8::encode_utf8("Enter passphrase (empty for no passphrase)"@)) {
        OutputClass::PassphrasePrompt
    } else if contains_sub(buf, vstd::utf8::encode_utf8("Enter same passphrase again"@)) {
        OutputClass::ConfirmPassphrasePrompt
    } else if contains_sub(buf, vstd::utf8::encode_utf8("Your identification has been saved in"@)) {
        OutputClass::Success
    } else if contains_sub(buf, vstd::utf8::encode_utf8(" already exists"@)) {
        OutputClass::KeyExists
    } else if contains_sub(buf, vstd::utf8::encode_utf8(" No such file or directory"@)) {
        OutputClass::NoSuchDir
    } else {
        OutputClass::Other
    }
}

/// Classifies one chunk of command output.
pub fn classify_output(content: &Vec<u8>) -> (r: OutputClass)
    ensures
        r == spec_classify(content@),
{
    let pat_pass = "Enter passphrase (empty for no passphrase)".as_bytes_vec();
    if contains_bytes(content, &pat_pass) {
        return OutputClass::PassphrasePrompt;
    }
    let pat_again = "Enter same passphrase again".as_bytes_vec();
    if contains_bytes(content, &pat_again) {
        return OutputClass::ConfirmPassphrasePrompt;
    }
    let pat_saved = "Your identification has been saved in".as_bytes_vec();
    if contains_bytes(content, &pat_saved) {
        return OutputClass::Success;
    }
    let pat_exists = " already exists".as_bytes_vec();
    if contains_bytes(content, &pat_exists) {
        return OutputClass::KeyExists;
    }
    let pat_nodir = " No such file or directory".as_bytes_vec();
    if contains_bytes(content, &pat_nodir) {
        return OutputClass::NoSuchDir;
    }
    OutputClass::Other
}

/// The events one output class stands for. `text` is the chunk decoded
/// for display.
pub open spec fn spec_class_messages(class: OutputClass, text: Seq<char>) -> Seq<MessageV> {
    match class {
        OutputClass::PassphrasePrompt => seq![MessageV::PromptNewKeyPassphrase],
        OutputClass::ConfirmPassphrasePrompt => seq![MessageV::PromptReenterNewKeyPassPhrase],
        OutputClass::Success => seq![
            MessageV::PrintSuccess(text),
            MessageV::RefreshPublicKeysList,
        ],
        OutputClass::KeyExists => seq![MessageV::PromptKeyOverwrite],
        OutputClass::NoSuchDir => seq![MessageV::PrintError(text)],
        OutputClass::Other => seq![MessageV::Draw],
    }
}

/// Builds the events for one output class. A success reports two events:
/// the success itself and a reload of the key list. `text` is the chunk
/// decoded for display; the prompt classes carry no text of their own.
pub fn class_messages(class: OutputClass, text: String) -> (r: Vec<Message>)
    ensures
        msgs_view(r@) == spec_class_messages(class, text@),
{
    let mut out: Vec<Message> = Vec::new();
    match class {
        OutputClass::PassphrasePrompt => {
            out.push(Message::PromptNewKeyPassphrase);
        },
        OutputClass::ConfirmPassphrasePrompt => {
            out.push(Message::PromptReenterNewKeyPassPhrase);
        },
        OutputClass::Success => {
            out.push(Message::PrintSuccess(text));
            out.push(Message::RefreshPublicKeysList);
        },
        OutputClass::KeyExists => {
            out.push(Message::PromptKeyOverwrite);
        },
        OutputClass::NoSuchDir => {
            out.push(Message::PrintError(text));
        },
        OutputClass::Other => {
            out.push(Message::Draw);
        },
    }
    proof {
        assert(msgs_view(out@) =~= spec_class_messages(class, text@));
    }
    out
}

/// The events one chunk of command output stands for: the chunk is
/// classified by first-match-wins over the ordered patterns, and the class
/// names the events. `text` is the chunk decoded for display.
pub fn handle_ssh_keygen_output(content: &Vec<u8>, text: String) -> (r: Vec<Message>)
    ensures
        msgs_view(r@) == spec_class_messages(spec_classify(content@), text@),
{
    let class = classify_output(content);
    class_messages(class, text)
}

/// One step of the background reader: an empty chunk is the end of the
/// command's output and finishes the task; any other chunk is classified
/// into its events and the reader goes on.
pub fn reader_step(chunk: &Vec<u8>, text: String) -> (r: (Vec<Message>, bool))
    ensures
        chunk@.len() == 0 ==> msgs_view(r.0@) == seq![MessageV::CmdFinished] && r.1,
        chunk@.len() > 0 ==> msgs_view(r.0@) == spec_class_messages(
            spec_classify(chunk@),
            text@,
        ) && !r.1,
{
    if chunk.len() == 0 {
        let mut out: Vec<Message> = Vec::new();
        out.push(Message::CmdFinished);
        proof {
            assert(msgs_view(out@) =~= seq![MessageV::CmdFinished]);
        }
        (out, true)
    } else {
        (handle_ssh_keygen_output(chunk, text), false)
    }
}

} // verus!
