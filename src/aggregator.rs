//! Short summaries of media items: news articles and tweets.

use vstd::prelude::*;

verus! {

/// Something that can be summed up in a line.
pub trait Summary {
    /// The text naming the item's author.
    spec fn author_text(&self) -> Seq<char>;

    /// The item's one-line summary.
    spec fn summary_text(&self) -> Seq<char>;

    fn summarize_author(&self) -> (r: String)
        ensures
            r@ == self.author_text(),
    ;

    fn summarize(&self) -> (r: String)
        ensures
            r@ == self.summary_text(),
    ;
}

pub struct NewsArticle {
    pub headline: String,
    pub location: String,
    pub author: String,
    pub content: String,
}

impl Summary for NewsArticle {
    open spec fn author_text(&self) -> Seq<char> {
        "(Read more from "@ + self.author@ + "...)"@
    }

    open spec fn summary_text(&self) -> Seq<char> {
        self.headline@ + ", by "@ + self.author@ + " ("@ + self.location@ + ")"@
    }

    fn summarize_author(&self) -> (r: String) {
        let mut r = String::from_str("(Read more from ");
        r.append(self.author.as_str());
        r.append("...)");
        r
    }

    fn summarize(&self) -> (r: String) {
        let mut r = String::from_str(self.headline.as_str());
        r.append(", by ");
        r.append(self.author.as_str());
        r.append(" (");
        r.append(self.location.as_str());
        r.append(")");
        r
    }
}

pub struct Tweet {
    pub username: String,
    pub content: String,
    pub reply: bool,
    pub retweet: bool,
}

impl Summary for Tweet {
    open spec fn author_text(&self) -> Seq<char> {
        "@"@ + self.username@
    }

    open spec fn summary_text(&self) -> Seq<char> {
        self.username@ + ": "@ + self.content@
    }

    fn summarize_author(&self) -> (r: String) {
        let mut r = String::from_str("@");
        r.append(self.username.as_str());
        r
    }

    fn summarize(&self) -> (r: String) {
        let mut r = String::from_str(self.username.as_str());
        r.append(": ");
        r.append(self.content.as_str());
        r
    }
}

} // verus!
