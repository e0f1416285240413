//! The decisions of a small web server: a pool of workers that share one task
//! queue, and a connection handler that answers two known request lines.
//!
//! The pool is generic over the handle of a running worker (`H`) and over the
//! send end of the task queue (`S`), so that starting threads and moving tasks
//! stay with the caller while sizing, numbering and shutdown are proved here.
use vstd::prelude::*;
use vstd::string::StringSliceAdditionalSpecFns;
use crate::text::same_text;

verus! {

/// Address the server listens on.
pub const ADDRESS: &'static str = "127.0.0.1:7878";

/// Number of workers used when a requested pool size cannot be honoured.
pub const NUM_CPU: usize = 4;

/// Seconds that the slow page waits before it answers.
pub const SLEEP_SECS: u64 = 5;

pub const HELLO_HTML: &'static str = "templates/hello.html";
pub const SLEEP_HTML: &'static str = "templates/sleep.html";
pub const NOT_FOUND_404_HTML: &'static str = "templates/404.html";

pub const GET_ROOT_URI: &'static str = "GET / HTTP/1.1";
pub const GET_SLEEP_URI: &'static str = "GET /sleep HTTP/1.1";

pub const STATUS_200_OK: &'static str = "HTTP/1.1 200 OK";
pub const STATUS_404_NOT_FOUND: &'static str = "HTTP/1.1 404 NOT FOUND";

pub const ERROR_POOL_CREATION: &'static str = "The number of threads in a pool must be greater than zero.";

pub const CONTENT_LENGTH_HEADER: &'static str = "\r\nContent-Length: ";
pub const HEADER_END: &'static str = "\r\n\r\n";

/// The error returned when a pool of zero workers is asked for.
#[derive(Clone, Copy, Debug)]
pub struct PoolCreationError;

impl PoolCreationError {
    /// The text that describes this error.
    pub fn message(&self) -> (r: &'static str)
        ensures
            r@ == ERROR_POOL_CREATION@,
    {
        ERROR_POOL_CREATION
    }
}

/// A worker: its number in the pool and the handle of its running thread,
/// which shutdown takes out to wait for it.
pub struct Worker<H> {
    pub id: usize,
    pub thread: Option<H>,
}

/// A fixed set of workers and the only send end of their task queue.
pub struct WorkerPool<H, S> {
    workers: Vec<Worker<H>>,
    sender: Option<S>,
}

impl<H, S> WorkerPool<H, S> {
    /// The number of each worker, in the order the workers were started.
    pub closed spec fn worker_ids(&self) -> Seq<usize> {
        self.workers@.map_values(|w: Worker<H>| w.id)
    }

    /// Whether each worker still holds the handle of its thread.
    pub closed spec fn running(&self) -> Seq<bool> {
        self.workers@.map_values(|w: Worker<H>| w.thread is Some)
    }

    /// The handle of each worker that still holds one.
    pub closed spec fn handles(&self) -> Seq<Option<H>> {
        self.workers@.map_values(|w: Worker<H>| w.thread)
    }

    /// Whether the pool still holds the send end of the queue.
    pub closed spec fn is_open(&self) -> bool {
        self.sender is Some
    }

    /// The send end of the queue, while the pool holds it.
    pub closed spec fn sender_spec(&self) -> Option<S> {
        self.sender
    }

    /// Starts `size` workers, numbered `0` to `size - 1` in order, each by one
    /// call of `spawn` with its number.
    pub fn new<F: Fn(usize) -> H>(size: usize, sender: S, spawn: F) -> (r: Self)
        requires
            size > 0,
            forall|i: usize| i < size ==> call_requires(spawn, (i,)),
        ensures
            r.worker_ids().len() == size,
            forall|i: int| 0 <= i < size ==> r.worker_ids()[i] == i,
            forall|i: int| 0 <= i < size ==> #[trigger] r.worker_ids()[i] < size,
            r.worker_ids().no_duplicates(),
            r.running() == Seq::new(size as nat, |i: int| true),
            forall|i: int|
                0 <= i < size ==> (#[trigger] r.handles()[i] matches Some(h) && call_ensures(
                    spawn,
                    (i as usize,),
                    h,
                )),
            r.sender_spec() == Some(sender),
    {
        Self::create_threads(size, sender, spawn)
    }

    /// As `new`, but a size of zero gives an error instead of a pool.
    pub fn build<F: Fn(usize) -> H>(size: usize, sender: S, spawn: F) -> (r: Result<
        Self,
        PoolCreationError,
    >)
        requires
            forall|i: usize| i < size ==> call_requires(spawn, (i,)),
        ensures
            r is Err <==> size == 0,
            r matches Ok(p) ==> {
                &&& p.worker_ids() == Seq::new(size as nat, |i: int| i as usize)
                &&& p.running() == Seq::new(size as nat, |i: int| true)
                &&& p.sender_spec() == Some(sender)
            },
    {
        if size == 0 {
            return Err(PoolCreationError);
        }
        Ok(Self::create_threads(size, sender, spawn))
    }

    /// Starts `size` workers, numbered `0` to `size - 1` in order, each by one
    /// call of `spawn` with its number, all fed by the queue whose send end
    /// is `sender`; the work shared by `new` and `build`.
    pub fn create_threads<F: Fn(usize) -> H>(size: usize, sender: S, spawn: F) -> (r: Self)
        requires
            forall|i: usize| i < size ==> call_requires(spawn, (i,)),
        ensures
            r.worker_ids() == Seq::new(size as nat, |i: int| i as usize),
            forall|i: int| 0 <= i < size ==> #[trigger] r.worker_ids()[i] < size,
            r.worker_ids().no_duplicates(),
            r.running() == Seq::new(size as nat, |i: int| true),
            forall|i: int|
                0 <= i < size ==> (#[trigger] r.handles()[i] matches Some(h) && call_ensures(
                    spawn,
                    (i as usize,),
                    h,
                )),
            r.sender_spec() == Some(sender),
    {
        let mut workers: Vec<Worker<H>> = Vec::with_capacity(size);
        let mut id: usize = 0;
        while id < size
            invariant
                id <= size,
                workers@.len() == id,
                forall|i: usize| i < size ==> call_requires(spawn, (i,)),
                forall|j: int| 0 <= j < id ==> (#[trigger] workers@[j]).id == j,
                forall|j: int|
                    0 <= j < id ==> ((#[trigger] workers@[j]).thread matches Some(h)
                        && call_ensures(spawn, (j as usize,), h)),
            decreases size - id,
        {
            let handle = spawn(id);
            workers.push(Worker { id, thread: Some(handle) });
            id = id + 1;
        }
        let r = WorkerPool { workers, sender: Some(sender) };
        assert(r.worker_ids() =~= Seq::new(size as nat, |i: int| i as usize));
        assert(r.running() =~= Seq::new(size as nat, |i: int| true));
        assert(r.worker_ids().no_duplicates()) by {
            assert forall|a: int, b: int|
                0 <= a < r.worker_ids().len() && 0 <= b < r.worker_ids().len() && a != b implies r.worker_ids()[a]
                != r.worker_ids()[b] by {}
        }
        r
    }

    /// The send end of the queue, to hand a task to the next free worker.
    /// It is there until the pool is shut down.
    pub fn sender(&self) -> (r: Option<&S>)
        ensures
            r matches Some(s) ==> self.sender_spec() == Some(*s),
            r is None <==> !self.is_open(),
    {
        self.sender.as_ref()
    }

    /// The number of workers.
    pub fn size(&self) -> (r: usize)
        ensures
            r == self.worker_ids().len(),
    {
        self.workers.len()
    }

    /// Closes the queue and takes out every worker's thread handle, in the
    /// order the workers were started, so that the caller can drop the
    /// returned send end first and then wait for each handle in turn.
    pub fn shutdown(&mut self) -> (r: (Option<S>, Vec<(usize, Option<H>)>))
        ensures
            final(self).is_shutdown_of(*old(self), r.0, r.1@),
    {
        let sender = self.sender.take();
        let ghost old_workers = self.workers@;
        let mut handles: Vec<(usize, Option<H>)> = Vec::new();
        let mut i: usize = 0;
        let n = self.workers.len();
        while i < n
            invariant
                n == self.workers@.len(),
                n == old_workers.len(),
                i <= n,
                self.sender is None,
                forall|j: int| 0 <= j < n ==> (#[trigger] self.workers@[j]).id == old_workers[j].id,
                forall|j: int| 0 <= j < i ==> (#[trigger] self.workers@[j]).thread is None,
                forall|j: int| i <= j < n ==> #[trigger] self.workers@[j] == old_workers[j],
                handles@.len() == i,
                forall|j: int|
                    0 <= j < i ==> #[trigger] handles@[j] == (
                        old_workers[j].id,
                        old_workers[j].thread,
                    ),
            decreases n - i,
        {
            let worker = &mut self.workers[i];
            let id = worker.id;
            let thread = worker.thread.take();
            handles.push((id, thread));
            i = i + 1;
        }
        assert(self.running() =~= Seq::new(old(self).worker_ids().len(), |i: int| false));
        assert(self.worker_ids() =~= old(self).worker_ids());
        (sender, handles)
    }

    /// Whether `self` is `before` shut down, with `sender` and `handles`
    /// handed out: the send end that `before` held, and each worker's number
    /// with the handle it held, in order; `self` keeps the same workers, with
    /// no handle and no send end.
    pub open spec fn is_shutdown_of(
        &self,
        before: Self,
        sender: Option<S>,
        handles: Seq<(usize, Option<H>)>,
    ) -> bool {
        &&& sender == before.sender_spec()
        &&& !self.is_open()
        &&& self.worker_ids() == before.worker_ids()
        &&& self.running() == Seq::new(before.worker_ids().len(), |i: int| false)
        &&& handles.len() == before.worker_ids().len()
        &&& forall|i: int|
            0 <= i < handles.len() ==> #[trigger] handles[i] == (
                before.worker_ids()[i],
                before.handles()[i],
            )
    }

    /// Shutting down a pool of `size` workers that all still run hands out,
    /// in order, the number `i` and a handle for each worker `i`, and leaves
    /// no worker running and the queue closed: no worker is left behind for
    /// the caller to wait for.
    pub proof fn lemma_shutdown_hands_out_every_worker(
        started: Self,
        stopped: Self,
        sender: Option<S>,
        handles: Seq<(usize, Option<H>)>,
        size: usize,
    )
        requires
            started.worker_ids() == Seq::new(size as nat, |i: int| i as usize),
            started.running() == Seq::new(size as nat, |i: int| true),
            stopped.is_shutdown_of(started, sender, handles),
        ensures
            handles.len() == size,
            forall|i: int| 0 <= i < size ==> (#[trigger] handles[i]).0 == i && handles[i].1 is Some,
            stopped.running() == Seq::new(size as nat, |i: int| false),
            !stopped.is_open(),
    {
        assert forall|i: int| 0 <= i < size implies (#[trigger] handles[i]).0 == i
            && handles[i].1 is Some by {
            assert(started.running()[i]);
            assert(started.running()[i] == (started.workers@[i].thread is Some));
            assert(started.handles()[i] == started.workers@[i].thread);
            assert(handles[i] == (started.worker_ids()[i], started.handles()[i]));
        }
    }
}

/// Starts a pool of `size` workers, or of `NUM_CPU` workers where `size` is zero.
pub fn create_pool<H, S, F: Fn(usize) -> H>(size: usize, sender: S, spawn: F) -> (r: WorkerPool<H, S>)
    requires
        forall|i: usize|
            i < (if size == 0 {
                NUM_CPU
            } else {
                size
            }) ==> call_requires(spawn, (i,)),
    ensures
        r.worker_ids() == Seq::new(
            (if size == 0 { NUM_CPU } else { size }) as nat,
            |i: int| i as usize,
        ),
        r.running() == Seq::new((if size == 0 { NUM_CPU } else { size }) as nat, |i: int| true),
        forall|i: int|
            0 <= i < (if size == 0 { NUM_CPU } else { size }) ==> (#[trigger] r.handles()[i] matches Some(h)
                && call_ensures(spawn, (i as usize,), h)),
        r.sender_spec() == Some(sender),
{
    let n = if size == 0 {
        NUM_CPU
    } else {
        size
    };
    let r = WorkerPool::new(n, sender, spawn);
    assert(r.worker_ids() =~= Seq::new(n as nat, |i: int| i as usize));
    r
}

/// The three answers the server knows.
#[derive(Clone, Copy, Debug, PartialEq, Eq, Structural)]
pub enum Page {
    Hello,
    Sleep,
    NotFound,
}

/// Whether `s` begins with `p`.
pub open spec fn has_prefix(s: Seq<u8>, p: Seq<u8>) -> bool {
    p.len() <= s.len() && s.subrange(0, p.len() as int) == p
}

/// The page that answers a request whose first bytes are `request`.
pub open spec fn page_spec(request: Seq<u8>) -> Page {
    if has_prefix(request, GET_ROOT_URI.spec_bytes()) {
        Page::Hello
    } else if has_prefix(request, GET_SLEEP_URI.spec_bytes()) {
        Page::Sleep
    } else {
        Page::NotFound
    }
}

/// The decimal digits of `n`, most significant first, as ASCII bytes.
pub open spec fn decimal(n: nat) -> Seq<u8>
    decreases n,
{
    if n < 10 {
        seq![(48 + n) as u8]
    } else {
        decimal(n / 10).push((48 + n % 10) as u8)
    }
}

/// The bytes of a response: status line, a content-length header that gives
/// the body's length in bytes, a blank line, and the body.
pub open spec fn response_spec(status: Seq<u8>, body: Seq<u8>) -> Seq<u8> {
    status + CONTENT_LENGTH_HEADER.spec_bytes() + decimal(body.len()) + HEADER_END.spec_bytes()
        + body
}

fn starts_with(s: &[u8], p: &[u8]) -> (r: bool)
    ensures
        r == has_prefix(s@, p@),
{
    if p.len() > s.len() {
        return false;
    }
    let mut i: usize = 0;
    while i < p.len()
        invariant
            p@.len() <= s@.len(),
            i <= p@.len(),
            forall|j: int| 0 <= j < i ==> s@[j] == p@[j],
        decreases p@.len() - i,
    {
        if s[i] != p[i] {
            assert(s@.subrange(0, p@.len() as int)[i as int] != p@[i as int]);
            return false;
        }
        i = i + 1;
    }
    assert(s@.subrange(0, p@.len() as int) =~= p@);
    true
}

/// Picks the page for a request whose first line is exactly `line`.
pub fn page_for_request_line(line: &str) -> (r: Page)
    ensures
        r == (if line@ == GET_ROOT_URI@ {
            Page::Hello
        } else if line@ == GET_SLEEP_URI@ {
            Page::Sleep
        } else {
            Page::NotFound
        }),
{
    if same_text(line, GET_ROOT_URI) {
        Page::Hello
    } else if same_text(line, GET_SLEEP_URI) {
        Page::Sleep
    } else {
        Page::NotFound
    }
}

/// Picks the page for a request by the literal start of its bytes.
pub fn page_for_request(request: &[u8]) -> (r: Page)
    ensures
        r == page_spec(request@),
{
    if starts_with(request, GET_ROOT_URI.as_bytes()) {
        Page::Hello
    } else if starts_with(request, GET_SLEEP_URI.as_bytes()) {
        Page::Sleep
    } else {
        Page::NotFound
    }
}

/// The status line that answers with `page`.
pub fn status_line(page: Page) -> (r: &'static str)
    ensures
        r == (if page == Page::NotFound {
            STATUS_404_NOT_FOUND
        } else {
            STATUS_200_OK
        }),
{
    match page {
        Page::NotFound => STATUS_404_NOT_FOUND,
        _ => STATUS_200_OK,
    }
}

/// The file that holds the body of `page`.
pub fn page_file(page: Page) -> (r: &'static str)
    ensures
        r == (match page {
            Page::Hello => HELLO_HTML,
            Page::Sleep => SLEEP_HTML,
            Page::NotFound => NOT_FOUND_404_HTML,
        }),
{
    match page {
        Page::Hello => HELLO_HTML,
        Page::Sleep => SLEEP_HTML,
        Page::NotFound => NOT_FOUND_404_HTML,
    }
}

/// Whether answering with `page` first waits `SLEEP_SECS` seconds.
pub fn is_slow(page: Page) -> (r: bool)
    ensures
        r == (page == Page::Sleep),
{
    match page {
        Page::Sleep => true,
        _ => false,
    }
}

/// The decimal digits of `n` as ASCII bytes.
pub fn decimal_bytes(n: usize) -> (r: Vec<u8>)
    ensures
        r@ == decimal(n as nat),
    decreases n,
{
    if n < 10 {
        let d: u8 = n as u8;
        vec![48u8 + d]
    } else {
        let mut r = decimal_bytes(n / 10);
        let d: u8 = (n % 10) as u8;
        r.push(48u8 + d);
        r
    }
}

fn push_all(out: &mut Vec<u8>, b: &[u8])
    ensures
        final(out)@ == old(out)@ + b@,
{
    let mut i: usize = 0;
    while i < b.len()
        invariant
            i <= b@.len(),
            out@ == old(out)@ + b@.subrange(0, i as int),
        decreases b@.len() - i,
    {
        out.push(b[i]);
        i = i + 1;
        assert(out@ =~= old(out)@ + b@.subrange(0, i as int));
    }
    assert(b@.subrange(0, b@.len() as int) =~= b@);
}

/// The full response with `status` as its status line and `contents` as its
/// body.
pub fn response(status: &str, contents: &str) -> (r: Vec<u8>)
    ensures
        r@ == response_spec(status.spec_bytes(), contents.spec_bytes()),
{
    let body = contents.as_bytes();
    let mut out: Vec<u8> = Vec::new();
    push_all(&mut out, status.as_bytes());
    push_all(&mut out, CONTENT_LENGTH_HEADER.as_bytes());
    let length = decimal_bytes(body.len());
    push_all(&mut out, length.as_slice());
    push_all(&mut out, HEADER_END.as_bytes());
    push_all(&mut out, body);
    assert(out@ =~= response_spec(status.spec_bytes(), contents.spec_bytes()));
    out
}

/// The response to a request whose first bytes are `request`, given the
/// contents of the file that `page_file` names for its page.
pub fn respond(request: &[u8], contents: &str) -> (r: Vec<u8>)
    ensures
        r@ == response_spec(
            (if page_spec(request@) == Page::NotFound {
                STATUS_404_NOT_FOUND
            } else {
                STATUS_200_OK
            }).spec_bytes(),
            contents.spec_bytes(),
        ),
{
    let page = page_for_request(request);
    response(status_line(page), contents)
}

} // verus!
