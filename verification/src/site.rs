//! A whole site held in memory: the store, one client's pending flash
//! messages, and the fixed error documents. Each request is routed, handled
//! against the store and answered, and the answer's flash messages are what
//! the next request finds pending. The site renders no page itself: it says
//! which page is to be rendered from what, and answers with what rendering
//! came to.

use vstd::prelude::*;
use crate::api::{
    changed_outcome, created, created_flash, delete, deleted_flash, index, index_bindings,
    index_response, is_index_page, rendered_outcome, rendered_view, respond, responded, toggle,
    ErrorPages, ErrorPagesView, Page, Step, StepView,
};
use crate::dispatch::{begin, begun_flash, begun_step, Form, FormView};
use crate::flash::{message_views, opened, read, FlashChannel, FlashMessage, FlashMessageView};
use crate::response::{Response, ResponseView};
use crate::router::{route, route_of, Method};
use crate::store::{
    store_create, store_delete, store_toggle, well_formed, MemoryStore, StoreCall, StoreCallView,
    StoreView,
};
use crate::template::Json;

verus! {

/// A request: its method, its path, and the form it came with.
#[derive(Debug, Clone, PartialEq, Eq)]
pub struct Request {
    pub method: Method,
    pub path: String,
    pub form: Form,
}

/// A request as specifications see it.
pub ghost struct RequestView {
    pub method: Method,
    pub path: Seq<char>,
    pub form: FormView,
}

impl View for Request {
    type V = RequestView;

    open spec fn view(&self) -> RequestView {
        RequestView { method: self.method, path: self.path@, form: self.form@ }
    }
}

/// A site as specifications see it.
pub ghost struct SiteView {
    pub store: StoreView,
    /// The flash messages that the client's next request comes with.
    pub pending: Seq<FlashMessageView>,
    pub pages: ErrorPagesView,
}

/// What a request is answered with.
pub ghost enum Shown {
    /// The index page, to be rendered from these values.
    Index(Map<Seq<char>, Json>),
    /// This answer.
    Exactly(ResponseView),
}

/// The site after a request, and what the request is answered with.
pub open spec fn served(site: SiteView, request: RequestView) -> (SiteView, Shown) {
    let route = route_of(request.method, request.path);
    let flash = begun_flash(route, request.form, opened(site.pending));
    match begun_step(route, request.form) {
        StepView::Respond(outcome) => (
            SiteView { store: site.store, pending: flash.outgoing, pages: site.pages },
            Shown::Exactly(responded(outcome, site.pages)),
        ),
        StepView::Ask(StoreCallView::ListAll) => (
            SiteView { store: site.store, pending: read(flash).outgoing, pages: site.pages },
            Shown::Index(index_bindings(site.store.tasks, flash.pending)),
        ),
        StepView::Ask(StoreCallView::Create(description)) => {
            let (store, result) = store_create(site.store, description);
            (
                SiteView { store, pending: created_flash(result, flash).outgoing, pages: site.pages },
                Shown::Exactly(responded(changed_outcome(result), site.pages)),
            )
        },
        StepView::Ask(StoreCallView::Toggle(id)) => {
            let (store, result) = store_toggle(site.store, id);
            (
                SiteView { store, pending: flash.outgoing, pages: site.pages },
                Shown::Exactly(responded(changed_outcome(result), site.pages)),
            )
        },
        StepView::Ask(StoreCallView::Delete(id)) => {
            let (store, result) = store_delete(site.store, id);
            (
                SiteView { store, pending: deleted_flash(result, flash).outgoing, pages: site.pages },
                Shown::Exactly(responded(changed_outcome(result), site.pages)),
            )
        },
    }
}

/// What serving a request comes to.
#[derive(Debug)]
pub enum Reply {
    /// This answer goes out.
    Answer(Response),
    /// This page is to be rendered first; what that comes to goes to
    /// [`Site::rendered`], which gives the answer.
    Render(Page),
}

/// Whether a reply is what was to be shown: the answer itself, or the index
/// page made of the values that it was to be rendered from.
pub open spec fn replies(reply: Reply, shown: Shown) -> bool {
    match shown {
        Shown::Index(values) => reply matches Reply::Render(page) && is_index_page(page, values),
        Shown::Exactly(expected) => reply matches Reply::Answer(response) && response@ == expected,
    }
}

/// A site held in memory, as one client sees it.
pub struct Site {
    store: MemoryStore,
    pending: Vec<FlashMessage>,
    pages: ErrorPages,
}

impl View for Site {
    type V = SiteView;

    closed spec fn view(&self) -> SiteView {
        SiteView { store: self.store@, pending: message_views(self.pending@), pages: self.pages@ }
    }
}

impl Site {
    /// A site without tasks and without pending messages.
    pub fn new(pages: ErrorPages) -> (site: Site)
        ensures
            site@ == (SiteView {
                store: StoreView { tasks: Seq::empty(), last_id: 0 },
                pending: Seq::empty(),
                pages: pages@,
            }),
            well_formed(site@.store),
    {
        let site = Site { store: MemoryStore::new(), pending: Vec::new(), pages };
        assert(message_views(site.pending@) =~= Seq::<FlashMessageView>::empty());
        site
    }

    /// The store of this site.
    pub fn store(&self) -> (store: &MemoryStore)
        ensures
            store@ == self@.store,
    {
        &self.store
    }

    /// The flash messages that the client's next request comes with.
    pub fn pending(&self) -> (pending: &Vec<FlashMessage>)
        ensures
            message_views(pending@) == self@.pending,
    {
        &self.pending
    }

    /// Serves one request: routes it and handles it against the store. The
    /// flash messages that were sent while it was handled are pending for
    /// the next request; those that were pending for this one are gone, read
    /// or not. A request for the index page is not answered yet: the reply
    /// is the page to render.
    pub fn serve(&mut self, request: Request) -> (reply: Reply)
        requires
            well_formed(old(self)@.store),
        ensures
            well_formed(final(self)@.store),
            final(self)@ == served(old(self)@, request@).0,
            replies(reply, served(old(self)@, request@).1),
    {
        let mut incoming: Vec<FlashMessage> = Vec::new();
        std::mem::swap(&mut self.pending, &mut incoming);
        let mut flash = FlashChannel::new(incoming);
        let found = route(request.method, request.path.as_str());
        let reply = match begin(found, request.form, &mut flash) {
            Step::Respond(outcome) => Reply::Answer(respond(outcome, &self.pages)),
            Step::Ask(StoreCall::ListAll) => match index(self.store.list_all(), &mut flash) {
                Ok(page) => Reply::Render(page),
                Err(failure) => Reply::Answer(respond(Err(failure), &self.pages)),
            },
            Step::Ask(StoreCall::Create(description)) => {
                let result = self.store.create(description);
                Reply::Answer(respond(created(result, &mut flash), &self.pages))
            },
            Step::Ask(StoreCall::Toggle(id)) => Reply::Answer(
                respond(toggle(self.store.toggle(id)), &self.pages),
            ),
            Step::Ask(StoreCall::Delete(id)) => {
                let result = self.store.delete(id);
                Reply::Answer(respond(delete(result, &mut flash), &self.pages))
            },
        };
        self.pending = flash.into_outgoing();
        reply
    }

    /// The answer to a request for a page, given what rendering the page
    /// came to: the page as it was rendered, or the answer of a failure to
    /// render it.
    pub fn rendered(&self, rendered: Result<String, String>) -> (response: Response)
        ensures
            response@ == responded(rendered_outcome(rendered_view(rendered)), self@.pages),
    {
        respond(index_response(rendered), &self.pages)
    }
}

} // verus!
