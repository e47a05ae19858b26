//! Input validation.
//!
//! Stateless checks applied at every string-accepting boundary: non-empty,
//! per-field-class length ceilings, identifier character-set restriction,
//! path-traversal and null-byte rejection, a deny-list substring scan for
//! commands, and inclusive numeric ranges. Every check is total: it returns
//! a typed failure rather than aborting.
//!
//! Lengths are measured in bytes of the UTF-8 encoding, as the substring
//! scans are; the non-empty check, the identifier character set and the
//! control-character filter are defined over characters. Blankness means
//! Unicode whitespace, and identifiers admit Unicode letters and digits
//! besides dash and underscore; both go through the standard library's
//! character classifiers.

use vstd::prelude::*;
use vstd::std_specs::iter::IteratorSpec;
use vstd::string::StrSliceExecFns;
use vstd::string::StringExecFns;
use vstd::string::StringSliceAdditionalSpecFns;
use vstd::utf8::encode_utf8;
use vstd::utf8::encode_scalar;

verus! {

broadcast use vstd::slice::group_slice_axioms, vstd::string::group_string_axioms;

/// The Unicode White_Space property, as `char::is_whitespace` answers it.
pub uninterp spec fn whitespace_char(c: char) -> bool;

/// Relies on `char::is_whitespace`: whether the character has the Unicode
/// White_Space property — a fixed verdict of the character alone.
pub assume_specification[ char::is_whitespace ](c: char) -> (r: bool)
    ensures
        r == whitespace_char(c),
;

/// Unicode alphabetic-or-numeric, as `char::is_alphanumeric` answers it.
pub uninterp spec fn alphanumeric_char(c: char) -> bool;

/// Relies on `char::is_alphanumeric`: whether the character is Unicode
/// alphabetic or numeric — a fixed verdict of the character alone.
pub assume_specification[ char::is_alphanumeric ](c: char) -> (r: bool)
    ensures
        r == alphanumeric_char(c),
;

/// Relies on `String::push`: appends one character at the end.
pub assume_specification[ String::push ](s: &mut String, ch: char)
    ensures
        final(s)@ == old(s)@.push(ch),
;

/// Maximum allowed string length for user inputs (bytes).
pub const MAX_STRING_LENGTH: usize = 10000;

/// Maximum allowed job name length (bytes).
pub const MAX_JOB_NAME_LENGTH: usize = 256;

/// Maximum allowed path length (bytes).
pub const MAX_PATH_LENGTH: usize = 4096;

/// Maximum allowed command length (bytes).
pub const MAX_COMMAND_LENGTH: usize = 65536;

/// Maximum number of environment variables.
pub const MAX_ENV_VARS: usize = 1000;

/// Maximum number of arguments.
pub const MAX_ARGUMENTS: usize = 1000;

/// A validation failure, carrying the field it concerns.
#[derive(Debug, Clone, PartialEq, Eq)]
pub enum ValidationError {
    /// Input is empty (or all whitespace) where it must not be.
    Empty(String),
    /// Input exceeds the maximum length for its field class.
    TooLong { field: String, max: usize, actual: usize },
    /// Input contains characters outside the allowed set.
    InvalidChars { field: String, invalid: String },
    /// Input contains a forbidden pattern.
    ForbiddenPattern { field: String, pattern: String },
    /// A numeric input lies outside its inclusive range.
    OutOfRange { field: String, min: i64, max: i64, actual: i64 },
    /// Any other validation failure.
    Invalid(String),
}

/// Result type for validation operations.
pub type ValidationResult<T> = core::result::Result<T, ValidationError>;

/// The character for one decimal digit.
pub open spec fn digit_char(d: nat) -> char
    recommends
        d < 10,
{
    ((48 + d) as u8) as char
}

/// The decimal digits of `n`, most significant first.
pub open spec fn dec_seq(n: nat) -> Seq<char>
    decreases n,
{
    if n < 10 {
        seq![digit_char(n)]
    } else {
        dec_seq(n / 10).push(digit_char(n % 10))
    }
}

/// The decimal rendering of a signed value: a minus sign before the
/// digits of its magnitude.
pub open spec fn dec_i64_seq(v: int) -> Seq<char> {
    if v < 0 {
        seq!['-'] + dec_seq((-v) as nat)
    } else {
        dec_seq(v as nat)
    }
}

/// Render an unsigned value in decimal.
pub fn u64_to_string(n: u64) -> (r: String)
    ensures
        r@ == dec_seq(n as nat),
    decreases n,
{
    if n < 10 {
        let mut s = String::new();
        s.push((48 + n as u8) as char);
        s
    } else {
        let mut s = u64_to_string(n / 10);
        s.push((48 + (n % 10) as u8) as char);
        s
    }
}

/// Render an index or length in decimal.
pub fn usize_to_string(n: usize) -> (r: String)
    ensures
        r@ == dec_seq(n as nat),
{
    u64_to_string(n as u64)
}

/// Render a signed value in decimal.
pub fn i64_to_string(v: i64) -> (r: String)
    ensures
        r@ == dec_i64_seq(v as int),
{
    if v >= 0 {
        u64_to_string(v as u64)
    } else {
        let mag: u64 = if v < -9223372036854775807i64 {
            9223372036854775808u64
        } else {
            (-v) as u64
        };
        let mut s = String::new();
        s.push('-');
        let d = u64_to_string(mag);
        s.append(d.as_str());
        s
    }
}

impl ValidationError {
    /// The text [`ValidationError::message`] renders.
    pub open spec fn spec_message(&self) -> Seq<char> {
        match self {
            ValidationError::Empty(f) => f@ + " cannot be empty"@,
            ValidationError::TooLong { field, max, actual } => field@ + " too long: "@ + dec_seq(
                *actual as nat,
            ) + " > "@ + dec_seq(*max as nat) + " max"@,
            ValidationError::InvalidChars { field, invalid } => field@
                + " contains invalid characters: "@ + invalid@,
            ValidationError::ForbiddenPattern { field, pattern } => field@
                + " contains forbidden pattern: "@ + pattern@,
            ValidationError::OutOfRange { field, min, max, actual } => field@
                + " out of range: "@ + dec_i64_seq(*actual as int) + " not in ["@ + dec_i64_seq(
                *min as int,
            ) + ", "@ + dec_i64_seq(*max as int) + "]"@,
            ValidationError::Invalid(msg) => "Validation error: "@ + msg@,
        }
    }

    /// A human-readable description of the failure.
    pub fn message(&self) -> (r: String)
        ensures
            r@ == self.spec_message(),
    {
        match self {
            ValidationError::Empty(f) => {
                let mut s = f.clone();
                s.append(" cannot be empty");
                s
            },
            ValidationError::TooLong { field, max, actual } => {
                let mut s = field.clone();
                s.append(" too long: ");
                let a = usize_to_string(*actual);
                s.append(a.as_str());
                s.append(" > ");
                let m = usize_to_string(*max);
                s.append(m.as_str());
                s.append(" max");
                s
            },
            ValidationError::InvalidChars { field, invalid } => {
                let mut s = field.clone();
                s.append(" contains invalid characters: ");
                s.append(invalid.as_str());
                s
            },
            ValidationError::ForbiddenPattern { field, pattern } => {
                let mut s = field.clone();
                s.append(" contains forbidden pattern: ");
                s.append(pattern.as_str());
                s
            },
            ValidationError::OutOfRange { field, min, max, actual } => {
                let mut s = field.clone();
                s.append(" out of range: ");
                let a = i64_to_string(*actual);
                s.append(a.as_str());
                s.append(" not in [");
                let mn = i64_to_string(*min);
                s.append(mn.as_str());
                s.append(", ");
                let mx = i64_to_string(*max);
                s.append(mx.as_str());
                s.append("]");
                s
            },
            ValidationError::Invalid(msg) => {
                let mut s = "Validation error: ".to_owned();
                s.append(msg.as_str());
                s
            },
        }
    }
}

/// A text that holds nothing but whitespace.
pub open spec fn blank_text(s: Seq<char>) -> bool {
    forall|i: int| 0 <= i < s.len() ==> whitespace_char(s[i])
}

/// Whether every character of `value` is whitespace. One pass over the
/// character iterator.
#[verifier::loop_isolation(false)]
fn text_is_blank(value: &str) -> (r: bool)
    ensures
        r == blank_text(value@),
{
    let ghost total = value@;
    let mut it = value.chars();
    let ghost mut k: int = 0;
    proof {
        assert(it.remaining() =~= total.subrange(0, total.len() as int));
    }
    loop
        invariant
            total == value@,
            0 <= k <= total.len(),
            it.obeys_prophetic_iter_laws(),
            it.remaining() =~= total.subrange(k, total.len() as int),
            forall|j: int| 0 <= j < k ==> whitespace_char(total[j]),
        decreases total.len() - k,
    {
        let ghost pre = it;
        match it.next() {
            None => {
                proof {
                    assert(pre.remaining().len() == 0);
                    assert(k == total.len());
                }
                break ;
            },
            Some(c) => {
                proof {
                    assert(pre.remaining().len() > 0);
                    assert(c == pre.remaining()[0]);
                    assert(c == total[k]);
                }
                if !c.is_whitespace() {
                    return false;
                }
                proof {
                    assert(it.remaining() =~= pre.remaining().drop_first());
                    assert(it.remaining() =~= total.subrange(k + 1, total.len() as int));
                    k = k + 1;
                }
            },
        }
    }
    true
}

/// The characters an identifier may hold: Unicode letters and digits,
/// dash, underscore.
pub open spec fn job_name_char_ok(c: char) -> bool {
    alphanumeric_char(c) || c == '-' || c == '_'
}

/// The characters of `s` that an identifier may not hold, in order.
pub open spec fn bad_chars(s: Seq<char>) -> Seq<char>
    decreases s.len(),
{
    if s.len() == 0 {
        Seq::empty()
    } else if job_name_char_ok(s.last()) {
        bad_chars(s.drop_last())
    } else {
        bad_chars(s.drop_last()).push(s.last())
    }
}

/// A control character: the C0 range, delete, and the C1 range.
pub open spec fn char_is_control(c: char) -> bool {
    (c as u32) < 32 || (c as u32) == 127 || (128 <= (c as u32) && (c as u32) <= 159)
}

/// A character the sanitizer keeps: anything but a control character,
/// except that line feed and tab stay.
pub open spec fn keep_char(c: char) -> bool {
    !char_is_control(c) || (c as u32) == 10 || (c as u32) == 9
}

/// The characters of `s` that the sanitizer keeps, in order.
pub open spec fn kept_chars(s: Seq<char>) -> Seq<char>
    decreases s.len(),
{
    if s.len() == 0 {
        Seq::empty()
    } else if keep_char(s.last()) {
        kept_chars(s.drop_last()).push(s.last())
    } else {
        kept_chars(s.drop_last())
    }
}

/// `needle` occurs as a contiguous run inside `hay`.
pub open spec fn contains_seq(hay: Seq<u8>, needle: Seq<u8>) -> bool {
    exists|i: int|
        0 <= i && i + needle.len() <= hay.len() && #[trigger] hay.subrange(
            i,
            i + needle.len() as int,
        ) == needle
}

/// Whether `needle` matches `hay` starting at position `i`.
fn match_at(hay: &[u8], needle: &[u8], i: usize) -> (r: bool)
    requires
        i + needle@.len() <= hay@.len(),
    ensures
        r == (hay@.subrange(i as int, i as int + needle@.len() as int) == needle@),
{
    let hn = hay.len();
    let m = needle.len();
    let mut j: usize = 0;
    while j < m
        invariant
            hn == hay@.len(),
            m == needle@.len(),
            i + m <= hn,
            0 <= j <= m,
            forall|k: int| 0 <= k < j ==> hay@[i + k] == needle@[k],
        decreases m - j,
    {
        if hay[i + j] != needle[j] {
            proof {
                assert(hay@.subrange(i as int, i as int + needle@.len() as int)[j as int]
                    != needle@[j as int]);
            }
            return false;
        }
        j += 1;
    }
    proof {
        assert(hay@.subrange(i as int, i as int + needle@.len() as int) =~= needle@);
    }
    true
}

/// Scan `hay` for an occurrence of `needle`.
fn contains_bytes(hay: &[u8], needle: &[u8]) -> (r: bool)
    requires
        needle@.len() >= 1,
    ensures
        r == contains_seq(hay@, needle@),
{
    let n = hay.len();
    let m = needle.len();
    if m > n {
        return false;
    }
    let mut i: usize = 0;
    while i <= n - m
        invariant
            n == hay@.len(),
            m == needle@.len(),
            1 <= m <= n,
            0 <= i <= n - m + 1,
            forall|k: int|
                0 <= k < i ==> #[trigger] hay@.subrange(k, k + needle@.len() as int) != needle@,
        decreases n - i,
    {
        if match_at(hay, needle, i) {
            proof {
                assert(contains_seq(hay@, needle@)) by {
                    assert(hay@.subrange(i as int, i as int + needle@.len() as int) == needle@);
                }
            }
            return true;
        }
        i += 1;
    }
    false
}

/// The UTF-8 encoding of a non-empty text is non-empty.
proof fn lemma_encode_utf8_nonempty(s: Seq<char>)
    requires
        s.len() >= 1,
    ensures
        encode_utf8(s).len() >= 1,
{
    assert(encode_utf8(s) == encode_scalar(s[0] as u32) + encode_utf8(s.drop_first()));
    assert(encode_scalar(s[0] as u32).len() >= 1);
}

/// Input validator holding the deny-list the command scan uses.
pub struct Validator {
    forbidden_patterns: Vec<String>,
}

impl Default for Validator {
    /// A validator with the default deny-list.
    fn default() -> (r: Self)
        ensures
            r.wf(),
    {
        Validator::new()
    }
}

impl Validator {
    /// The deny-list, in the order the scan tries it: shell substitution,
    /// backticks, chaining, pipes, redirection, and path traversal.
    pub closed spec fn patterns(&self) -> Seq<Seq<char>> {
        self.forbidden_patterns@.map_values(|p: String| p@)
    }

    /// The deny-list every new validator carries.
    pub open spec fn default_patterns() -> Seq<Seq<char>> {
        seq![
            "$(("@,
            "$("@,
            "`"@,
            "&&"@,
            "||"@,
            ";"@,
            "|"@,
            ">"@,
            "<"@,
            ".."@,
        ]
    }

    /// A validator is well-formed when it carries exactly the default
    /// deny-list.
    pub open spec fn wf(&self) -> bool {
        self.patterns() =~= Self::default_patterns()
    }

    /// Create a new validator with the default deny-list.
    pub fn new() -> (r: Validator)
        ensures
            r.wf(),
    {
        let mut forbidden_patterns: Vec<String> = Vec::new();
        forbidden_patterns.push("$((".to_owned());
        forbidden_patterns.push("$(".to_owned());
        forbidden_patterns.push("`".to_owned());
        forbidden_patterns.push("&&".to_owned());
        forbidden_patterns.push("||".to_owned());
        forbidden_patterns.push(";".to_owned());
        forbidden_patterns.push("|".to_owned());
        forbidden_patterns.push(">".to_owned());
        forbidden_patterns.push("<".to_owned());
        forbidden_patterns.push("..".to_owned());
        let r = Validator { forbidden_patterns };
        proof {
            assert(r.patterns() =~= Self::default_patterns());
        }
        r
    }

    /// Validate that a string holds at least one non-whitespace
    /// character.
    pub fn require_non_empty(&self, field: &str, value: &str) -> (r: ValidationResult<()>)
        ensures
            r is Ok <==> !blank_text(value@),
            r matches Err(e) ==> e matches ValidationError::Empty(f) && f@ == field@,
    {
        if text_is_blank(value) {
            Err(ValidationError::Empty(field.to_owned()))
        } else {
            Ok(())
        }
    }

    /// Validate that a string's byte length does not exceed `max`.
    pub fn validate_length(&self, field: &str, value: &str, max: usize) -> (r: ValidationResult<
        (),
    >)
        ensures
            r is Ok <==> value.spec_bytes().len() <= max,
            r matches Err(e) ==> e matches ValidationError::TooLong { field: f, max: m, actual: a }
                && f@ == field@ && m == max && a == value.spec_bytes().len(),
    {
        let n = value.as_bytes().len();
        if n > max {
            Err(
                ValidationError::TooLong {
                    field: field.to_owned(),
                    max,
                    actual: n,
                },
            )
        } else {
            Ok(())
        }
    }

    /// Validate a job name: non-empty, at most [`MAX_JOB_NAME_LENGTH`]
    /// bytes, and restricted to letters, digits, dash and underscore.
    #[verifier::loop_isolation(false)]
    pub fn validate_job_name(&self, name: &str) -> (r: ValidationResult<()>)
        ensures
            r is Ok <==> (!blank_text(name@) && name.spec_bytes().len() <= MAX_JOB_NAME_LENGTH
                && bad_chars(name@).len() == 0),
            blank_text(name@) ==> (r matches Err(e) && e matches ValidationError::Empty(f) && f@
                == "job_name"@),
            !blank_text(name@) && name.spec_bytes().len() > MAX_JOB_NAME_LENGTH ==> r matches Err(
                ValidationError::TooLong { .. },
            ),
            r matches Err(e) ==> (e matches ValidationError::InvalidChars {
                field: f,
                invalid: inv,
            } ==> f@ == "job_name"@ && inv@ == bad_chars(name@)),
    {
        if let Err(e) = self.require_non_empty("job_name", name) {
            return Err(e);
        }
        if let Err(e) = self.validate_length("job_name", name, MAX_JOB_NAME_LENGTH) {
            return Err(e);
        }
        let n = name.unicode_len();
        let mut invalid = String::new();
        let mut i: usize = 0;
        while i < n
            invariant
                n == name@.len(),
                0 <= i <= n,
                invalid@ == bad_chars(name@.subrange(0, i as int)),
            decreases n - i,
        {
            let c = name.get_char(i);
            if !(c.is_alphanumeric() || c == '-' || c == '_') {
                invalid.push(c);
            }
            proof {
                assert(name@.subrange(0, i + 1).drop_last() =~= name@.subrange(0, i as int));
                assert(name@.subrange(0, i + 1).last() == name@[i as int]);
            }
            i += 1;
        }
        proof {
            assert(name@.subrange(0, n as int) =~= name@);
        }
        if invalid.as_str().is_empty() {
            Ok(())
        } else {
            Err(
                ValidationError::InvalidChars {
                    field: "job_name".to_owned(),
                    invalid,
                },
            )
        }
    }

    /// Validate a filesystem path: at most [`MAX_PATH_LENGTH`] bytes,
    /// no `..` traversal, no null byte.
    pub fn validate_path(&self, path: &str) -> (r: ValidationResult<()>)
        ensures
            r is Ok <==> (path.spec_bytes().len() <= MAX_PATH_LENGTH && !contains_seq(
                path.spec_bytes(),
                seq![46u8, 46u8],
            ) && !contains_seq(path.spec_bytes(), seq![0u8])),
            path.spec_bytes().len() > MAX_PATH_LENGTH ==> r matches Err(
                ValidationError::TooLong { .. },
            ),
            path.spec_bytes().len() <= MAX_PATH_LENGTH && contains_seq(
                path.spec_bytes(),
                seq![46u8, 46u8],
            ) ==> (r matches Err(e) && e matches ValidationError::ForbiddenPattern {
                field: f,
                pattern: p,
            } && f@ == "path"@ && p@ == ".."@),
            path.spec_bytes().len() <= MAX_PATH_LENGTH && !contains_seq(
                path.spec_bytes(),
                seq![46u8, 46u8],
            ) && contains_seq(path.spec_bytes(), seq![0u8]) ==> (r matches Err(e) && e matches
                ValidationError::InvalidChars { field: f, invalid: inv } && f@ == "path"@ && inv@
                == "null byte"@),
    {
        if let Err(e) = self.validate_length("path", path, MAX_PATH_LENGTH) {
            return Err(e);
        }
        let bytes = path.as_bytes();
        let mut dotdot: Vec<u8> = Vec::new();
        dotdot.push(46);
        dotdot.push(46);
        proof {
            assert(dotdot@ =~= seq![46u8, 46u8]);
        }
        if contains_bytes(bytes, dotdot.as_slice()) {
            return Err(
                ValidationError::ForbiddenPattern {
                    field: "path".to_owned(),
                    pattern: "..".to_owned(),
                },
            );
        }
        let mut nul: Vec<u8> = Vec::new();
        nul.push(0);
        proof {
            assert(nul@ =~= seq![0u8]);
        }
        if contains_bytes(bytes, nul.as_slice()) {
            return Err(
                ValidationError::InvalidChars {
                    field: "path".to_owned(),
                    invalid: "null byte".to_owned(),
                },
            );
        }
        Ok(())
    }

    /// Validate a command line: non-empty, at most [`MAX_COMMAND_LENGTH`]
    /// bytes, and free of every deny-list pattern. The first pattern found,
    /// in deny-list order, is the one reported.
    #[verifier::loop_isolation(false)]
    pub fn validate_command(&self, command: &str) -> (r: ValidationResult<()>)
        requires
            self.wf(),
        ensures
            r is Ok <==> (!blank_text(command@) && command.spec_bytes().len()
                <= MAX_COMMAND_LENGTH && forall|k: int|
                0 <= k < Self::default_patterns().len() ==> !contains_seq(
                    command.spec_bytes(),
                    encode_utf8(#[trigger] Self::default_patterns()[k]),
                )),
            blank_text(command@) ==> (r matches Err(e) && e matches ValidationError::Empty(f)
                && f@ == "command"@),
            !blank_text(command@) && command.spec_bytes().len() > MAX_COMMAND_LENGTH ==> r matches
                Err(ValidationError::TooLong { .. }),
            !blank_text(command@) && command.spec_bytes().len() <= MAX_COMMAND_LENGTH && r is Err
                ==> r matches Err(ValidationError::ForbiddenPattern { .. }),
            r matches Err(e) ==> (e matches ValidationError::ForbiddenPattern {
                field: f,
                pattern: p,
            } ==> f@ == "command"@ && exists|k: int|
                0 <= k < Self::default_patterns().len() && p@ == #[trigger] Self::default_patterns()[k]
                    && contains_seq(command.spec_bytes(), encode_utf8(Self::default_patterns()[k]))
                    && forall|k2: int|
                    0 <= k2 < k ==> !contains_seq(
                        command.spec_bytes(),
                        encode_utf8(#[trigger] Self::default_patterns()[k2]),
                    )),
    {
        if let Err(e) = self.require_non_empty("command", command) {
            return Err(e);
        }
        if let Err(e) = self.validate_length("command", command, MAX_COMMAND_LENGTH) {
            return Err(e);
        }
        let bytes = command.as_bytes();
        let mut k: usize = 0;
        while k < self.forbidden_patterns.len()
            invariant
                self.wf(),
                bytes@ == command.spec_bytes(),
                0 <= k <= self.forbidden_patterns@.len(),
                self.forbidden_patterns@.len() == Self::default_patterns().len(),
                forall|k2: int|
                    0 <= k2 < k ==> !contains_seq(
                        command.spec_bytes(),
                        encode_utf8(#[trigger] Self::default_patterns()[k2]),
                    ),
            decreases self.forbidden_patterns@.len() - k,
        {
            let pat = &self.forbidden_patterns[k];
            proof {
                assert(pat@ == self.patterns()[k as int]);
                assert(Self::default_patterns()[k as int].len() >= 1) by {
                    Self::lemma_default_patterns_nonempty();
                }
                lemma_encode_utf8_nonempty(pat@);
            }
            if contains_bytes(bytes, pat.as_str().as_bytes()) {
                return Err(
                    ValidationError::ForbiddenPattern {
                        field: "command".to_owned(),
                        pattern: pat.clone(),
                    },
                );
            }
            k += 1;
        }
        Ok(())
    }

    /// Every deny-list entry holds at least one character.
    proof fn lemma_default_patterns_nonempty()
        ensures
            forall|k: int|
                0 <= k < Self::default_patterns().len() ==> (
                #[trigger] Self::default_patterns()[k]).len() >= 1,
    {
        reveal_strlit("$((");
        reveal_strlit("$(");
        reveal_strlit("`");
        reveal_strlit("&&");
        reveal_strlit("||");
        reveal_strlit(";");
        reveal_strlit("|");
        reveal_strlit(">");
        reveal_strlit("<");
        reveal_strlit("..");
    }

    /// Validate that a value lies in the inclusive range `[min, max]`.
    pub fn validate_range(&self, field: &str, value: i64, min: i64, max: i64) -> (r:
        ValidationResult<()>)
        ensures
            r is Ok <==> min <= value <= max,
            r matches Err(e) ==> e matches ValidationError::OutOfRange {
                field: f,
                min: mn,
                max: mx,
                actual: a,
            } && f@ == field@ && mn == min && mx == max && a == value,
    {
        if value < min || value > max {
            Err(
                ValidationError::OutOfRange {
                    field: field.to_owned(),
                    min,
                    max,
                    actual: value,
                },
            )
        } else {
            Ok(())
        }
    }

    /// Validate an accelerator count: `0` to `1024`, inclusive.
    pub fn validate_gpu_count(&self, count: u32) -> (r: ValidationResult<()>)
        ensures
            r is Ok <==> count <= 1024,
            r matches Err(e) ==> (e matches ValidationError::OutOfRange {
                field: f,
                min: mn,
                max: mx,
                actual: a,
            } && f@ == "gpu_count"@ && mn == 0 && mx == 1024 && a == count),
    {
        self.validate_range("gpu_count", count as i64, 0, 1024)
    }

    /// Validate a scheduling priority: `-1000` to `1000`, inclusive.
    pub fn validate_priority(&self, priority: i32) -> (r: ValidationResult<()>)
        ensures
            r is Ok <==> -1000 <= priority <= 1000,
            r matches Err(e) ==> (e matches ValidationError::OutOfRange {
                field: f,
                min: mn,
                max: mx,
                actual: a,
            } && f@ == "priority"@ && mn == -1000 && mx == 1000 && a == priority),
    {
        self.validate_range("priority", priority as i64, -1000, 1000)
    }

    /// Validate an ingress buffer capacity: `1` to a gibibyte, inclusive.
    pub fn validate_buffer_size(&self, size: usize) -> (r: ValidationResult<()>)
        ensures
            r is Ok <==> 1 <= size <= 1073741824,
            r matches Err(e) ==> (e matches ValidationError::OutOfRange {
                field: f,
                min: mn,
                max: mx,
                actual: a,
            } && f@ == "buffer_size"@ && mn == 1 && mx == 1073741824 && (size
                <= 9223372036854775807 ==> a == size)),
    {
        let actual: i64 = if size as u64 > 9223372036854775807u64 {
            9223372036854775807i64
        } else {
            size as i64
        };
        self.validate_range("buffer_size", actual, 1, 1073741824)
    }
}

/// Remove control characters from a string, keeping line feeds and tabs.
pub fn sanitize_string(input: &str) -> (r: String)
    ensures
        r@ == kept_chars(input@),
{
    let n = input.unicode_len();
    let mut out = String::new();
    let mut i: usize = 0;
    while i < n
        invariant
            n == input@.len(),
            0 <= i <= n,
            out@ == kept_chars(input@.subrange(0, i as int)),
        decreases n - i,
    {
        let c = input.get_char(i);
        let v = c as u32;
        if !(v < 32 || v == 127 || (128 <= v && v <= 159)) || v == 10 || v == 9 {
            out.push(c);
        }
        proof {
            assert(input@.subrange(0, i + 1).drop_last() =~= input@.subrange(0, i as int));
            assert(input@.subrange(0, i + 1).last() == input@[i as int]);
        }
        i += 1;
    }
    proof {
        assert(input@.subrange(0, n as int) =~= input@);
    }
    out
}

/// Sanitize a log message and cap it at [`MAX_STRING_LENGTH`] characters,
/// marking a capped message as truncated.
pub fn sanitize_log_message(message: &str) -> (r: String)
    ensures
        r@ == if kept_chars(message@).len() > MAX_STRING_LENGTH {
            kept_chars(message@).subrange(0, MAX_STRING_LENGTH as int) + "... [truncated]"@
        } else {
            kept_chars(message@)
        },
{
    let sanitized = sanitize_string(message);
    let n = sanitized.as_str().unicode_len();
    if n > MAX_STRING_LENGTH {
        let prefix = sanitized.as_str().substring_char(0, MAX_STRING_LENGTH);
        let mut out = prefix.to_owned();
        out.append("... [truncated]");
        out
    } else {
        sanitized
    }
}

} // verus!
