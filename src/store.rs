use vstd::prelude::*;
use std::sync::Arc;
use crate::request::{Request, RequestModel, default_model};
use crate::requests::{next_index, prev_index};

verus! {

/// Abstract value of a response: status code, headers and body.
pub type ResponseModel = (u16, Seq<char>, Seq<char>);

/// The last response received.
#[derive(Clone, Debug)]
pub struct Response {
    pub status: u16,
    pub headers: String,
    pub body: String,
}

impl View for Response {
    type V = ResponseModel;

    open spec fn view(&self) -> ResponseModel {
        (self.status, self.headers@, self.body@)
    }
}

impl Default for Response {
    fn default() -> (r: Self)
        ensures
            r@ == (0u16, Seq::<char>::empty(), Seq::<char>::empty()),
    {
        Response { status: 0, headers: String::new(), body: String::new() }
    }
}

/// Values of a list of requests.
pub open spec fn models(v: Seq<Request>) -> Seq<RequestModel> {
    v.map_values(|r: Request| r@)
}

/// An in-memory history of requests with a cursor, a shared snapshot of the
/// request under the cursor, and the last response.
pub struct DataStore {
    request_history: Vec<Request>,
    index_current_request: usize,
    current_request: Arc<Request>,
    last_response: Arc<Response>,
}

impl DataStore {
    /// Values of the stored requests, in order.
    pub closed spec fn history(&self) -> Seq<RequestModel> {
        models(self.request_history@)
    }

    /// Cursor position.
    pub closed spec fn cursor(&self) -> nat {
        self.index_current_request as nat
    }

    /// Value of the request under the cursor.
    pub open spec fn current(&self) -> RequestModel {
        self.history()[self.cursor() as int]
    }

    /// Value of the shared snapshot handed to readers.
    pub closed spec fn snapshot(&self) -> RequestModel {
        (*self.current_request)@
    }

    /// Value of the last response.
    pub closed spec fn response(&self) -> ResponseModel {
        (*self.last_response)@
    }

    pub closed spec fn wf(&self) -> bool {
        &&& self.request_history@.len() > 0
        &&& self.index_current_request < self.request_history@.len()
        &&& (*self.current_request)@ == self.request_history@[self.index_current_request as int]@
    }

    /// What the store invariant tells a caller: the cursor is in range and
    /// the shared snapshot holds the request under it.
    pub proof fn lemma_wf(&self)
        requires
            self.wf(),
        ensures
            self.history().len() > 0,
            self.cursor() < self.history().len(),
            self.snapshot() == self.current(),
    {
    }

    /// Builds the store over `requests`, or over one default request when
    /// `requests` is empty. The cursor starts on the first entry.
    pub fn init(requests: Vec<Request>) -> (r: Self)
        ensures
            r.wf(),
            r.cursor() == 0,
            requests@.len() > 0 ==> r.history() == models(requests@),
            requests@.len() == 0 ==> r.history() == seq![default_model()],
            r.response() == (0u16, Seq::<char>::empty(), Seq::<char>::empty()),
    {
        let requests_to_use = if requests.len() == 0 {
            vec![Request::default()]
        } else {
            requests
        };
        proof {
            if requests@.len() == 0 {
                assert(models(requests_to_use@) =~= seq![default_model()]);
            }
        }
        let current_request = Arc::new(requests_to_use[0].duplicate());
        let last_response = Arc::new(Response::default());
        DataStore {
            request_history: requests_to_use,
            index_current_request: 0,
            current_request,
            last_response,
        }
    }

    /// Shared read-only snapshot of the request under the cursor.
    pub fn get_request(&self) -> (r: Arc<Request>)
        requires
            self.wf(),
        ensures
            (*r)@ == self.current(),
    {
        Arc::new(self.current_request.duplicate())
    }

    /// All stored requests, in order.
    pub fn get_requests(&self) -> (r: &Vec<Request>)
        ensures
            models(r@) == self.history(),
    {
        &self.request_history
    }

    /// Cursor position.
    pub fn request_ind(&self) -> (r: usize)
        ensures
            r == self.cursor(),
    {
        self.index_current_request
    }

    /// Replaces the request under the cursor by `request`.
    pub fn update_request(&mut self, request: Request)
        requires
            old(self).wf(),
        ensures
            final(self).wf(),
            final(self).cursor() == old(self).cursor(),
            final(self).history() == old(self).history().update(old(self).cursor() as int, request@),
            final(self).response() == old(self).response(),
    {
        self.current_request = Arc::new(request.duplicate());
        self.save_request(request);
    }

    /// Writes the snapshot of the current request back into the history.
    /// `request` is not read: the snapshot is what is written.
    pub fn save_request(&mut self, request: Request)
        requires
            old(self).cursor() < old(self).history().len(),
        ensures
            final(self).wf(),
            final(self).cursor() == old(self).cursor(),
            final(self).history() == old(self).history().update(
                old(self).cursor() as int,
                old(self).snapshot(),
            ),
            old(self).wf() ==> final(self).history() == old(self).history(),
            final(self).response() == old(self).response(),
    {
        let ind = self.index_current_request;
        let snapshot = self.current_request.duplicate();
        self.request_history.set(ind, snapshot);
        proof {
            assert(models(self.request_history@) =~= models(old(self).request_history@).update(
                ind as int,
                (*old(self).current_request)@,
            ));
        }
    }

    /// Moves the cursor to `index` when it is in range; otherwise reports
    /// failure and leaves the cursor where it was.
    pub fn goto_request(&mut self, index: usize) -> (r: Option<()>)
        requires
            old(self).wf(),
        ensures
            final(self).wf(),
            final(self).history() == old(self).history(),
            final(self).response() == old(self).response(),
            index < old(self).history().len() ==> r == Some(()) && final(self).cursor() == index,
            index >= old(self).history().len() ==> r is None && final(self).cursor() == old(self).cursor(),
    {
        if index < self.request_history.len() {
            self.index_current_request = index;
            let req = self.request_history[index].duplicate();
            self.current_request = Arc::new(req);
            Some(())
        } else {
            None
        }
    }

    /// Moves the cursor one step forward, wrapping from the last entry to the first.
    pub fn goto_next_request(&mut self)
        requires
            old(self).wf(),
        ensures
            final(self).wf(),
            final(self).cursor() == next_index(old(self).cursor(), old(self).history().len()),
            final(self).history() == old(self).history(),
            final(self).response() == old(self).response(),
    {
        let total = self.request_history.len();
        let next = if self.index_current_request + 1 < total {
            self.index_current_request + 1
        } else {
            0
        };
        let _ = self.goto_request(next);
    }

    /// Moves the cursor one step backward, wrapping from the first entry to the last.
    pub fn goto_prev_request(&mut self)
        requires
            old(self).wf(),
        ensures
            final(self).wf(),
            final(self).cursor() == prev_index(old(self).cursor(), old(self).history().len()),
            final(self).history() == old(self).history(),
            final(self).response() == old(self).response(),
    {
        let total = self.request_history.len();
        let prev = if self.index_current_request >= 1 {
            self.index_current_request - 1
        } else {
            total - 1
        };
        let _ = self.goto_request(prev);
    }

    /// Appends `req` and moves the cursor onto it. Returns its index.
    pub fn add_request(&mut self, req: Request) -> (r: usize)
        requires
            old(self).wf(),
        ensures
            final(self).wf(),
            final(self).history() == old(self).history().push(req@),
            r == old(self).history().len(),
            final(self).cursor() == r,
            final(self).response() == old(self).response(),
    {
        let ghost v = req@;
        self.request_history.push(req);
        proof {
            assert(models(self.request_history@) =~= models(old(self).request_history@).push(v));
        }
        let ind = self.request_history.len() - 1;
        let _ = self.goto_request(ind);
        ind
    }

    /// Shared read-only snapshot of the last response.
    pub fn get_response(&self) -> (r: Arc<Response>)
        ensures
            (*r)@ == self.response(),
    {
        Arc::new(self.last_response.clone_response())
    }

    /// Replaces the last response.
    pub fn update_response(&mut self, response: Response)
        requires
            old(self).wf(),
        ensures
            final(self).wf(),
            final(self).response() == response@,
            final(self).history() == old(self).history(),
            final(self).cursor() == old(self).cursor(),
    {
        self.last_response = Arc::new(response);
    }
}

impl Response {
    /// A field-by-field copy of the response.
    pub fn clone_response(&self) -> (r: Response)
        ensures
            r@ == self@,
    {
        Response { status: self.status, headers: self.headers.clone(), body: self.body.clone() }
    }
}

} // verus!
