//! The application's state: the item list, the canvas settings, and the
//! messages that change them.

use vstd::prelude::*;
use vstd::string::StringExecFns;
use crate::file_details::FileDetails;
use crate::file_details::FileDetailsView;
use crate::geometry::DEFAULT_EXTENT;
use crate::page_items::PageItems;
use crate::page_items::PageItemsView;
use crate::settings::parse_query;
use crate::settings::parse_settings_query;
use crate::settings::i32_param;
use crate::settings::CanvasSettings;
use crate::settings::QueryParams;
use crate::text_details::TextDetails;

verus! {

/// A message to the application.
#[derive(Debug)]
pub enum Msg {
    /// A file was read: its name, type, data, and natural width and height.
    Loaded(String, String, Vec<u8>, i32, i32),
    /// The user chose files, given by name; the application starts reading them.
    Files(Vec<String>),
    /// The user added a text.
    Text(TextDetails),
    /// The item source gave a record.
    Item(PageItems),
    /// The first load is over.
    FinishedLoading,
    /// The canvas sizing source gave its settings.
    SetupCanvas(CanvasSettings),
}

/// The application's state.
#[derive(Debug)]
pub struct App {
    /// The records in the order in which they came.
    pub items: Vec<PageItems>,
    /// Whether the query is still to be read.
    pub first_load: bool,
    pub canvas_settings: CanvasSettings,
}

/// The views of a list of records.
pub open spec fn views(items: Seq<PageItems>) -> Seq<PageItemsView> {
    Seq::new(items.len(), |i: int| items[i]@)
}

/// The record that an uploaded file becomes: movable, at the origin, of the
/// default width, its height left to the image's ratio.
pub open spec fn uploaded(name: Seq<char>, file_type: Seq<char>, data: Seq<u8>, width: i32, height: i32) -> PageItemsView {
    PageItemsView {
        file: Some(FileDetailsView { name, file_type, data, width, height }),
        width: Some(DEFAULT_EXTENT),
        ..PageItemsView::defaults()
    }
}

impl Msg {
    /// The record that the message adds to the item list, if it adds one.
    pub open spec fn added(self) -> Option<PageItemsView> {
        match self {
            Msg::Loaded(name, file_type, data, width, height) => Some(
                uploaded(name@, file_type@, data@, width, height),
            ),
            Msg::Text(text) => Some(PageItemsView { text: Some(text@), ..PageItemsView::defaults() }),
            Msg::Item(item) => Some(item@),
            _ => None,
        }
    }
}

impl App {
    /// The state before anything was loaded: no items, no settings.
    pub fn create() -> (app: App)
        ensures
            app.items@.len() == 0,
            app.first_load,
            app.canvas_settings == (CanvasSettings { width: None, height: None }),
    {
        App { items: Vec::new(), first_load: true, canvas_settings: CanvasSettings { width: None, height: None } }
    }

    /// Takes a message and says whether the page is to be drawn again, which
    /// it always is. A message that brings a record appends it to the list;
    /// the other two set the flag or the settings; chosen files change
    /// nothing until they are loaded.
    pub fn update(&mut self, msg: Msg) -> (redraw: bool)
        ensures
            redraw,
            views(final(self).items@) == match msg.added() {
                Some(item) => views(old(self).items@).push(item),
                None => views(old(self).items@),
            },
            final(self).first_load == (old(self).first_load && !(msg is FinishedLoading)),
            final(self).canvas_settings == match msg {
                Msg::SetupCanvas(settings) => settings,
                _ => old(self).canvas_settings,
            },
    {
        let ghost before = self.items@;
        match msg {
            Msg::Loaded(name, file_type, data, width, height) => {
                let file = FileDetails { name, file_type, data, width, height };
                let item = PageItems {
                    text: None,
                    file: Some(file),
                    x: 0,
                    y: 0,
                    width: Some(DEFAULT_EXTENT),
                    height: None,
                    movable: true,
                };
                self.items.push(item);
                assert(views(self.items@) =~= views(before).push(item@));
            },
            Msg::Files(_) => {},
            Msg::Text(text) => {
                let item = PageItems {
                    text: Some(text),
                    file: None,
                    x: 0,
                    y: 0,
                    width: None,
                    height: None,
                    movable: true,
                };
                self.items.push(item);
                assert(views(self.items@) =~= views(before).push(item@));
            },
            Msg::Item(item) => {
                self.items.push(item);
                assert(views(self.items@) =~= views(before).push(item@));
            },
            Msg::FinishedLoading => {
                self.first_load = false;
            },
            Msg::SetupCanvas(settings) => {
                self.canvas_settings = settings;
            },
        }
        true
    }

    /// The messages with which the first draw loads the page from its query:
    /// one for each record of the query, in order, then the canvas settings,
    /// then the end of the first load. After the first load there are none.
    pub fn first_load_messages(
        &self,
        params: &QueryParams,
        canvas_width: &Vec<String>,
        canvas_height: &Vec<String>,
    ) -> (messages: Vec<Msg>)
        ensures
            !self.first_load ==> messages@.len() == 0,
            self.first_load ==> {
                &&& messages@.len() == params.types@.len() + 2
                &&& forall|i: int|
                    0 <= i < params.types@.len() ==> (#[trigger] messages@[i]) is Item && messages@[i].added() == Some(
                        params.item_at(i),
                    )
                &&& messages@[params.types@.len() as int] == Msg::SetupCanvas(
                    CanvasSettings { width: i32_param(canvas_width@, 0), height: i32_param(canvas_height@, 0) },
                )
                &&& messages@[params.types@.len() as int + 1] == Msg::FinishedLoading
            },
    {
        let mut messages: Vec<Msg> = Vec::new();
        if self.first_load {
            let items = parse_query(params);
            let n = items.len();
            let mut i: usize = 0;
            while i < n
                invariant
                    n == params.types@.len(),
                    items@.len() == n,
                    i <= n,
                    messages@.len() == i,
                    forall|j: int| 0 <= j < n ==> (#[trigger] items@[j])@ == params.item_at(j),
                    forall|j: int|
                        0 <= j < i ==> (#[trigger] messages@[j]) is Item && messages@[j].added() == Some(
                            params.item_at(j),
                        ),
                decreases n - i,
            {
                let item = items[i].clone();
                messages.push(Msg::Item(item));
                i += 1;
            }
            messages.push(Msg::SetupCanvas(parse_settings_query(canvas_width, canvas_height)));
            messages.push(Msg::FinishedLoading);
        }
        messages
    }

    /// Frames the records that a script left for the page, a list separated
    /// by commas, as one list to be read: the text between brackets. An empty
    /// text holds no records and gives nothing to read.
    pub fn frame_extra_data(data: &str) -> (framed: Option<String>)
        ensures
            data@.len() == 0 ==> framed is None,
            data@.len() > 0 ==> framed is Some && framed->0@ == "["@ + data@ + "]"@,
    {
        if data.is_empty() {
            None
        } else {
            Some("[".to_owned().concat(data).concat("]"))
        }
    }

    /// The record drawn at place `k`: the page draws the records last first,
    /// so that the earliest lies on top of those placed like it.
    pub fn item_drawn_at(&self, k: usize) -> (item: &PageItems)
        requires
            k < self.items@.len(),
        ensures
            *item == self.items@[self.items@.len() - 1 - k],
    {
        &self.items[self.items.len() - 1 - k]
    }
}

} // verus!
