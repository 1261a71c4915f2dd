use vstd::prelude::*;
use vstd::string::StringSliceAdditionalSpecFns;

pub mod config;
pub mod error;
mod sys;

pub use error::Error;
pub use error::NameError;

verus! {

/// The separator character that queue names are built around, as a byte of
/// their UTF-8 encoding. It is ASCII, so it appears in the encoding exactly
/// where the character `/` appears in the name.
pub const SEPARATOR: u8 = 0x2f;

/// How many times the separator occurs in a name's byte encoding.
pub open spec fn sep_count(b: Seq<u8>) -> int
    decreases b.len(),
{
    if b.len() == 0 {
        0
    } else {
        sep_count(b.drop_last()) + if b.last() == SEPARATOR {
            1int
        } else {
            0int
        }
    }
}

/// Whether the encoding holds an embedded nul byte anywhere. A validated name
/// never does: it is handed to the kernel as a nul-terminated C string, where
/// an embedded nul would silently cut it short.
pub open spec fn has_nul(b: Seq<u8>) -> bool {
    exists|i: int| 0 <= i < b.len() && b[i] == 0
}

/// A well-formed queue name encoding: a single leading separator, at least one
/// further byte, at most 255 bytes in all, no second separator anywhere, and
/// no embedded nul byte.
pub open spec fn valid_name(b: Seq<u8>) -> bool {
    &&& 2 <= b.len() <= 255
    &&& b[0] == SEPARATOR
    &&& sep_count(b) == 1
    &&& !has_nul(b)
}

/// The first validation rule that a name's byte encoding breaks, if any.
/// The rules are checked in this order; the first failure wins.
pub open spec fn name_error(b: Seq<u8>) -> Option<NameError> {
    if b.len() == 0 || b[0] != SEPARATOR {
        Some(NameError::MustStartWithSeparator)
    } else if b.len() == 1 {
        Some(NameError::SeparatorOnly)
    } else if b.len() > 255 {
        Some(NameError::TooLong)
    } else if sep_count(b) > 1 {
        Some(NameError::TooManySeparators)
    } else {
        None
    }
}

proof fn lemma_sep_count_at_least_one(b: Seq<u8>, i: int)
    requires
        0 <= i < b.len(),
        b[i] == SEPARATOR,
    ensures
        sep_count(b) >= 1,
    decreases b.len(),
{
    if i < b.len() - 1 {
        lemma_sep_count_at_least_one(b.drop_last(), i);
    } else {
        lemma_sep_count_nonneg(b.drop_last());
    }
}

proof fn lemma_sep_count_nonneg(b: Seq<u8>)
    ensures
        sep_count(b) >= 0,
    decreases b.len(),
{
    if b.len() > 0 {
        lemma_sep_count_nonneg(b.drop_last());
    }
}

/// A name passes every ordered rule and the nul check exactly when it is well
/// formed.
pub proof fn lemma_name_error_none_iff_valid(b: Seq<u8>)
    ensures
        (name_error(b) is None && !has_nul(b)) <==> valid_name(b),
{
    lemma_sep_count_nonneg(b);
    if b.len() > 0 && b[0] == SEPARATOR {
        lemma_sep_count_at_least_one(b, 0);
    }
}

/// A validated POSIX queue name. Construction through [`Name::new`] is the
/// only validation point; a value of this type always satisfies
/// [`valid_name`] on its byte encoding, and is immutable once built.
#[derive(Debug)]
pub struct Name {
    s: String,
}

impl View for Name {
    type V = Seq<char>;

    closed spec fn view(&self) -> Seq<char> {
        self.s@
    }
}

impl Name {
    /// The byte encoding of the name, the form the validation rules and the
    /// kernel interface work on.
    pub closed spec fn spec_bytes(&self) -> Seq<u8> {
        vstd::utf8::encode_utf8(self.s@)
    }

    /// Validate a raw string as a queue name. The rules, checked in order
    /// with the first failure winning: the name must start with the
    /// separator, must not be the separator alone, must not exceed 255 bytes,
    /// and must not contain a second separator. A string that passes all four
    /// but holds an embedded nul byte cannot become a nul-terminated kernel
    /// name; that is rejected as an internal-invariant failure, not as a name
    /// rule of its own. On success the returned name carries exactly the
    /// characters that were passed in.
    pub fn new(s: &str) -> (r: Result<Name, Error>)
        ensures
            match r {
                Ok(n) => {
                    &&& name_error(s.spec_bytes()) is None
                    &&& !has_nul(s.spec_bytes())
                    &&& valid_name(s.spec_bytes())
                    &&& n@ == s@
                    &&& n.spec_bytes() == s.spec_bytes()
                },
                Err(e) => {
                    &&& (name_error(s.spec_bytes()) matches Some(re) ==> e
                        == Error::InvalidQueueName(re))
                    &&& (name_error(s.spec_bytes()) is None ==> has_nul(s.spec_bytes()) && e
                        == Error::UnknownInternalError)
                },
            },
    {
        let b = s.as_bytes();
        let len = b.len();

        if len == 0 || b[0] != SEPARATOR {
            return Err(Error::InvalidQueueName(NameError::MustStartWithSeparator));
        }

        if len == 1 {
            return Err(Error::InvalidQueueName(NameError::SeparatorOnly));
        }

        if len > 255 {
            return Err(Error::InvalidQueueName(NameError::TooLong));
        }

        let mut count: usize = 0;
        let mut i: usize = 0;
        while i < len
            invariant
                0 <= i <= len,
                len == b@.len(),
                count == sep_count(b@.take(i as int)),
                count <= i,
            decreases len - i,
        {
            proof {
                assert(b@.take(i + 1).drop_last() =~= b@.take(i as int));
                assert(b@.take(i + 1).last() == b@[i as int]);
            }
            if b[i] == SEPARATOR {
                count = count + 1;
            }
            i = i + 1;
        }
        proof {
            assert(b@.take(len as int) =~= b@);
        }

        if count > 1 {
            return Err(Error::InvalidQueueName(NameError::TooManySeparators));
        }

        if contains_nul(b) {
            return Err(Error::UnknownInternalError);
        }

        proof {
            lemma_name_error_none_iff_valid(s.spec_bytes());
            lemma_sep_count_at_least_one(s.spec_bytes(), 0);
        }
        Ok(Name { s: s.to_owned() })
    }

    /// The name as a string slice, exactly the characters it was validated
    /// from.
    pub fn as_str(&self) -> (r: &str)
        ensures
            r@ == self@,
            r.spec_bytes() == self.spec_bytes(),
    {
        self.s.as_str()
    }
}

/// Permission bits for a freshly created queue: read/write for the owning
/// user, no access for group or others.
fn default_mode() -> (r: u32)
    ensures
        r == 0o600,
{
    0o600
}

fn contains_nul(b: &[u8]) -> (r: bool)
    ensures
        r == has_nul(b@),
{
    let mut i: usize = 0;
    while i < b.len()
        invariant
            0 <= i <= b@.len(),
            forall|k: int| 0 <= k < i ==> b@[k] != 0,
        decreases b@.len() - i,
    {
        if b[i] == 0 {
            proof {
                assert(has_nul(b@)) by {
                    assert(b@[i as int] == 0);
                }
            }
            return true;
        }
        i = i + 1;
    }
    proof {
        assert(!has_nul(b@)) by {
            if has_nul(b@) {
                let k = choose|k: int| 0 <= k < b@.len() && b@[k] == 0;
                assert(b@[k] != 0);
            }
        }
    }
    false
}

fn bytes_eq(a: &[u8], b: &[u8]) -> (r: bool)
    ensures
        r == (a@ == b@),
{
    if a.len() != b.len() {
        return false;
    }
    let mut i: usize = 0;
    while i < a.len()
        invariant
            0 <= i <= a@.len(),
            a@.len() == b@.len(),
            forall|k: int| 0 <= k < i ==> a@[k] == b@[k],
        decreases a@.len() - i,
    {
        if a[i] != b[i] {
            return false;
        }
        i = i + 1;
    }
    proof {
        assert(a@ =~= b@);
    }
    true
}

/// One message: an opaque byte payload and an unsigned priority tag. The
/// kernel's dequeueing order for priorities is its own; nothing here depends
/// on it.
#[derive(Debug)]
pub struct Message {
    pub data: Vec<u8>,
    pub priority: u32,
}

impl Message {
    /// The message as assembled from the outputs of a receive call: the first
    /// `received` bytes of the buffer — the trailing rest is cut off, not
    /// kept as padding — with the kernel-reported priority unchanged.
    pub fn from_buffer(data: Vec<u8>, received: usize, priority: u32) -> (m: Message)
        requires
            received <= data@.len(),
        ensures
            m.data@ == data@.take(received as int),
            m.priority == priority,
    {
        let mut data = data;
        data.truncate(received);
        Message { data, priority }
    }
}

impl PartialEq for Message {
    fn eq(&self, other: &Message) -> (r: bool) {
        bytes_eq(self.data.as_slice(), other.data.as_slice()) && self.priority == other.priority
    }
}

impl vstd::std_specs::cmp::PartialEqSpecImpl for Message {
    open spec fn obeys_eq_spec() -> bool {
        true
    }

    open spec fn eq_spec(&self, other: &Message) -> bool {
        self.data@ == other.data@ && self.priority == other.priority
    }
}

/// One open descriptor to a named POSIX message queue, together with the
/// queue's limits (maximum pending message count and maximum message size) as
/// cached at open or creation time. The descriptor is owned exclusively by
/// this handle and is closed exactly once, when the handle is destroyed.
#[derive(Debug)]
pub struct Queue {
    name: Name,
    /// The kernel descriptor. Always present; the indirection only lets the
    /// destructor pass it to the close call by value.
    queue_descriptor: Option<nix::mqueue::MqdT>,
    /// Maximum number of pending messages in this queue.
    max_pending: i64,
    /// Maximum size of a message in this queue, in bytes.
    max_size: usize,
}

impl Queue {
    #[verifier::type_invariant]
    spec fn wf(self) -> bool {
        self.queue_descriptor is Some
    }

    /// The queue's name, as characters.
    pub closed spec fn spec_name(&self) -> Seq<char> {
        self.name@
    }

    /// The cached maximum pending message count.
    pub closed spec fn spec_max_pending(&self) -> i64 {
        self.max_pending
    }

    /// The cached maximum message size.
    pub closed spec fn spec_max_size(&self) -> usize {
        self.max_size
    }

    /// Create a new queue, failing with [`Error::QueueAlreadyExists`] if a
    /// queue of that name is already present. The queue is readable and
    /// writable by the current user only; on Linux that can be changed later
    /// through the queue's file in `/dev/mqueue`. The two system limits are
    /// read first and a request exceeding either is rejected before any
    /// creation syscall is issued; on success the requested limits become the
    /// handle's cached attributes.
    pub fn create(name: Name, max_pending: i64, max_size: i64) -> (r: Result<Queue, Error>)
        requires
            max_size <= usize::MAX,
        ensures
            r matches Ok(q) ==> {
                &&& q.spec_name() == name@
                &&& q.spec_max_pending() == max_pending
                &&& q.spec_max_size() as int == max_size as int
            },
            r matches Err(e) ==> {
                ||| e == Error::MaximumMessageCountExceeded
                ||| e == Error::MaximumMessageSizeExceeded
                ||| e matches Error::ValueReadingError(_)
                ||| e == Error::UnknownInternalError
                ||| error::is_errno_kind(e)
            },
    {
        let sys_max_pending = match config::read_i64_from_file(config::msg_max_path()) {
            Ok(v) => v,
            Err(e) => {
                return Err(e);
            },
        };
        let sys_max_size = match config::read_i64_from_file(config::msgsize_max_path()) {
            Ok(v) => v,
            Err(e) => {
                return Err(e);
            },
        };
        Self::create_with_limits(name, max_pending, max_size, sys_max_pending, sys_max_size)
    }

    /// The creation step of [`Queue::create`], against explicitly supplied
    /// system limits instead of the ones read from the operating environment,
    /// so that the limit checks can be exercised against fixed values. A
    /// request exceeding a limit is rejected with the matching kind — the
    /// count check first — and no creation syscall is issued for it.
    pub fn create_with_limits(
        name: Name,
        max_pending: i64,
        max_size: i64,
        sys_max_pending: i64,
        sys_max_size: i64,
    ) -> (r: Result<Queue, Error>)
        requires
            max_size <= usize::MAX,
        ensures
            (r matches Err(e) && e == Error::MaximumMessageCountExceeded) <==> max_pending
                > sys_max_pending,
            (r matches Err(e) && e == Error::MaximumMessageSizeExceeded) <==> (max_pending
                <= sys_max_pending && max_size > sys_max_size),
            r matches Ok(q) ==> {
                &&& max_pending <= sys_max_pending
                &&& max_size <= sys_max_size
                &&& q.spec_name() == name@
                &&& q.spec_max_pending() == max_pending
                &&& q.spec_max_size() as int == max_size as int
            },
            r matches Err(e) ==> {
                ||| e == Error::MaximumMessageCountExceeded
                ||| e == Error::MaximumMessageSizeExceeded
                ||| error::is_errno_kind(e)
            },
    {
        if max_pending > sys_max_pending {
            return Err(Error::MaximumMessageCountExceeded);
        }
        if max_size > sys_max_size {
            return Err(Error::MaximumMessageSizeExceeded);
        }

        let mqd = match sys::mq_open(
            name.as_str(),
            true,
            true,
            default_mode(),
            Some((max_pending, max_size)),
        ) {
            Ok(d) => d,
            Err(e) => {
                proof {
                    error::lemma_match_errno_is_errno_kind(e as int);
                }
                return Err(error::match_errno(e));
            },
        };

        Ok(
            Queue {
                name,
                queue_descriptor: Some(mqd),
                max_pending,
                max_size: max_size as usize,
            },
        )
    }

    /// Open an existing queue, failing with [`Error::QueueNotFound`] if there
    /// is none of that name. The queue's actual configured attributes are
    /// queried from the kernel and cached; caller-supplied values are not
    /// trusted.
    pub fn open(name: Name) -> (r: Result<Queue, Error>)
        ensures
            r matches Ok(q) ==> {
                &&& q.spec_name() == name@
                &&& q.spec_max_pending() > 0
                &&& q.spec_max_size() > 0
            },
            r matches Err(e) ==> error::is_errno_kind(e) || e == Error::UnknownInternalError,
    {
        let mqd = match sys::mq_open(name.as_str(), false, false, default_mode(), None) {
            Ok(d) => d,
            Err(e) => {
                proof {
                    error::lemma_match_errno_is_errno_kind(e as int);
                }
                return Err(error::match_errno(e));
            },
        };
        Self::from_descriptor(name, mqd)
    }

    /// Open an existing queue, or create it with the operating environment's
    /// default limits if it is absent. The attributes actually in force are
    /// then queried from the kernel and cached, since the kernel may adjust
    /// requested values.
    pub fn open_or_create(name: Name) -> (r: Result<Queue, Error>)
        ensures
            r matches Ok(q) ==> {
                &&& q.spec_name() == name@
                &&& q.spec_max_pending() > 0
                &&& q.spec_max_size() > 0
            },
            r matches Err(e) ==> {
                ||| error::is_errno_kind(e)
                ||| e matches Error::ValueReadingError(_)
                ||| e == Error::UnknownInternalError
            },
    {
        let default_pending = match config::read_i64_from_file(config::msg_default_path()) {
            Ok(v) => v,
            Err(e) => {
                return Err(e);
            },
        };
        let default_size = match config::read_i64_from_file(config::msgsize_default_path()) {
            Ok(v) => v,
            Err(e) => {
                return Err(e);
            },
        };

        let mqd = match sys::mq_open(
            name.as_str(),
            true,
            false,
            default_mode(),
            Some((default_pending, default_size)),
        ) {
            Ok(d) => d,
            Err(e) => {
                proof {
                    error::lemma_match_errno_is_errno_kind(e as int);
                }
                return Err(error::match_errno(e));
            },
        };
        Self::from_descriptor(name, mqd)
    }

    /// Build the handle around a freshly opened descriptor, caching the
    /// attributes the kernel reports for it. When the attribute query fails,
    /// the descriptor is closed before the error is returned, so that it is
    /// released exactly once on this exit path too.
    fn from_descriptor(name: Name, mqd: nix::mqueue::MqdT) -> (r: Result<Queue, Error>)
        ensures
            r matches Ok(q) ==> {
                &&& q.spec_name() == name@
                &&& q.spec_max_pending() > 0
                &&& q.spec_max_size() > 0
            },
            r matches Err(e) ==> error::is_errno_kind(e) || e == Error::UnknownInternalError,
    {
        match sys::mq_getattr(&mqd) {
            Ok((max_pending, max_size)) => Self::from_attrs(name, mqd, max_pending, max_size),
            Err(e) => {
                sys::mq_close(mqd);
                proof {
                    error::lemma_match_errno_is_errno_kind(e as int);
                }
                Err(error::match_errno(e))
            },
        }
    }

    /// Build the handle around a descriptor and the attribute pair the kernel
    /// reported for it: the pair becomes the cached attributes, exactly. The
    /// one failure is a reported message size beyond what this platform can
    /// address — the handle could never allocate a receive buffer for it —
    /// and on that exit the descriptor is closed before returning.
    fn from_attrs(name: Name, mqd: nix::mqueue::MqdT, max_pending: i64, max_size: i64) -> (r:
        Result<Queue, Error>)
        requires
            max_size > 0,
        ensures
            max_size as int <= usize::MAX as int ==> (r matches Ok(q) && q.spec_name() == name@
                && q.spec_max_pending() == max_pending && q.spec_max_size() as int
                == max_size as int),
            (r matches Err(e) && e == Error::UnknownInternalError) <==> max_size as int
                > usize::MAX as int,
            r matches Err(e) ==> e == Error::UnknownInternalError,
    {
        if max_size as u64 > usize::MAX as u64 {
            sys::mq_close(mqd);
            return Err(Error::UnknownInternalError);
        }
        Ok(
            Queue {
                name,
                queue_descriptor: Some(mqd),
                max_pending,
                max_size: max_size as usize,
            },
        )
    }

    /// Remove the queue's name from the system, making it invisible to new
    /// open attempts; descriptors already open (in this or any other process)
    /// stay usable until they are closed. Consumes the handle — its own
    /// descriptor is closed as the consumed handle is destroyed — so no
    /// further operation on it is possible, which the compiler enforces.
    pub fn delete(self) -> (r: Result<(), Error>)
        ensures
            r matches Err(e) ==> error::is_errno_kind(e),
    {
        match sys::mq_unlink(self.name.as_str()) {
            Ok(()) => Ok(()),
            Err(e) => {
                proof {
                    error::lemma_match_errno_is_errno_kind(e as int);
                }
                Err(error::match_errno(e))
            },
        }
    }

    /// Send a message. A payload larger than the queue's cached maximum
    /// message size is rejected with [`Error::MessageSizeExceeded`] — and
    /// only such a payload is — before any syscall. Otherwise the call blocks
    /// while the queue is full, until space becomes available or a signal
    /// interrupts it.
    pub fn send(&self, msg: &Message) -> (r: Result<(), Error>)
        ensures
            (r matches Err(e) && e == Error::MessageSizeExceeded) <==> msg.data@.len()
                > self.spec_max_size(),
            r matches Err(e) ==> e == Error::MessageSizeExceeded || error::is_errno_kind(e),
    {
        if msg.data.len() > self.max_size {
            return Err(Error::MessageSizeExceeded);
        }
        proof {
            use_type_invariant(self);
        }
        let mqd = self.queue_descriptor.as_ref().unwrap();
        match sys::mq_send(mqd, msg.data.as_slice(), msg.priority) {
            Ok(()) => Ok(()),
            Err(e) => {
                proof {
                    error::lemma_match_errno_is_errno_kind(e as int);
                }
                Err(error::match_errno(e))
            },
        }
    }

    /// Receive a message, blocking until one is available or a signal
    /// interrupts the call. The returned payload is never longer than the
    /// queue's cached maximum message size.
    pub fn receive(&self) -> (r: Result<Message, Error>)
        ensures
            r matches Ok(m) ==> m.data@.len() <= self.spec_max_size(),
            r matches Err(e) ==> error::is_errno_kind(e),
    {
        proof {
            use_type_invariant(self);
        }
        let mut data = config::zeroed(self.max_size);
        let mut priority: u32 = 0;
        let mqd = self.queue_descriptor.as_ref().unwrap();
        let received = match sys::mq_receive(mqd, &mut data, &mut priority) {
            Ok(n) => n,
            Err(e) => {
                proof {
                    error::lemma_match_errno_is_errno_kind(e as int);
                }
                return Err(error::match_errno(e));
            },
        };
        Ok(Message::from_buffer(data, received, priority))
    }

    /// The cached maximum pending message count; no syscall is involved.
    pub fn max_pending(&self) -> (r: i64)
        ensures
            r == self.spec_max_pending(),
    {
        self.max_pending
    }

    /// The cached maximum message size; no syscall is involved.
    pub fn max_size(&self) -> (r: usize)
        ensures
            r == self.spec_max_size(),
    {
        self.max_size
    }
}

impl Drop for Queue {
    /// Relies on `nix::mqueue::mq_close` (`mq_close(3)`): releases the
    /// descriptor. Any error from the close call is discarded — the only code
    /// the call reports is for an invalid descriptor, which would mean the
    /// descriptor was already closed and there is nothing actionable left.
    #[verifier::external_body]
    fn drop(&mut self)
        opens_invariants none
        no_unwind
    {
        if let Some(d) = self.queue_descriptor.take() {
            let _ = nix::mqueue::mq_close(d);
        }
    }
}

} // verus!
