use vstd::prelude::*;
use vstd::string::*;

use crate::text::{decimal, push_decimal};

verus! {

/// A calendar day, as the CMS reports it in the site's local time.
#[derive(Clone, Copy, Debug, PartialEq, Eq, Structural)]
pub struct PublishedDate {
    pub year: i32,
    pub month: u32,
    pub day: u32,
}

/// The date as `YYYY-MM-DD`. A year outside `0..=9999` carries an explicit sign
/// and at least four digits, as ISO 8601 asks for.
pub open spec fn date_text(d: PublishedDate) -> Seq<char> {
    let year = if 0 <= d.year <= 9999 {
        decimal(d.year as nat, 4)
    } else if d.year >= 0 {
        seq!['+'] + decimal(d.year as nat, 4)
    } else {
        seq!['-'] + decimal((-d.year) as nat, 4)
    };
    year + seq!['-'] + decimal(d.month as nat, 2) + seq!['-'] + decimal(d.day as nat, 2)
}

impl PublishedDate {
    /// What a calendar date can hold: a month of the year and a day of a month.
    pub open spec fn wf(&self) -> bool {
        1 <= self.month <= 12 && 1 <= self.day <= 31
    }

    /// The date of the given year, month and day, or `None` where the month or
    /// the day is out of range.
    pub fn new(year: i32, month: u32, day: u32) -> (r: Option<PublishedDate>)
        ensures
            r is Some <==> (1 <= month <= 12 && 1 <= day <= 31),
            r matches Some(d) ==> d.wf() && d.year == year && d.month == month && d.day == day,
    {
        if 1 <= month && month <= 12 && 1 <= day && day <= 31 {
            Some(PublishedDate { year, month, day })
        } else {
            None
        }
    }

    /// Appends the date in the form of `date_text`.
    pub fn push_text(&self, out: &mut String)
        ensures
            final(out)@ == old(out)@ + date_text(*self),
    {
        proof {
            reveal_strlit("+");
            reveal_strlit("-");
        }
        let ghost start = out@;
        if 0 <= self.year && self.year <= 9999 {
            push_decimal(out, self.year as u32, 4);
        } else if self.year >= 0 {
            out.append("+");
            push_decimal(out, self.year as u32, 4);
        } else {
            out.append("-");
            let magnitude: u32 = (-(self.year as i64)) as u32;
            push_decimal(out, magnitude, 4);
        }
        out.append("-");
        push_decimal(out, self.month, 2);
        out.append("-");
        push_decimal(out, self.day, 2);
        assert(out@ =~= start + date_text(*self));
    }
}

/// A page as listed by the CMS.
pub struct PageListing {
    pub slug: String,
    pub title: String,
}

/// The CMS's answer to a page listing.
pub struct PagesResponse {
    pub pages: Vec<PageListing>,
}

/// A post as listed by the CMS, with the day it was published.
pub struct PostListing {
    pub slug: String,
    pub title: String,
    pub published_at: PublishedDate,
}

impl PostListing {
    /// A listing whose publication day is a calendar date.
    pub open spec fn wf(&self) -> bool {
        self.published_at.wf()
    }
}

/// The CMS's answer to a post listing.
pub struct PostsResponse {
    pub posts: Vec<PostListing>,
}

/// A page or a post: its title and its HTML body.
pub struct Content {
    pub title: String,
    pub html: String,
}

/// The CMS's answer to a page lookup by slug.
pub struct PageContentResponse {
    pub pages: Vec<Content>,
}

/// The CMS's answer to a post lookup by slug.
pub struct PostContentResponse {
    pub posts: Vec<Content>,
}

/// The site's title and description.
pub struct Settings {
    pub title: String,
    pub description: String,
}

/// The CMS's answer to a settings request.
pub struct SettingsResponse {
    pub settings: Settings,
}

/// The document that a lookup answered with: the last one of the answer, or
/// nothing when the answer holds none.
pub open spec fn answered(docs: Seq<Content>) -> Option<Content> {
    if docs.len() == 0 {
        None
    } else {
        Some(docs.last())
    }
}

impl PageContentResponse {
    /// The page that the lookup found, if any.
    pub fn into_content(self) -> (r: Option<Content>)
        ensures
            r == answered(self.pages@),
    {
        let mut pages = self.pages;
        pages.pop()
    }
}

impl PostContentResponse {
    /// The post that the lookup found, if any.
    pub fn into_content(self) -> (r: Option<Content>)
        ensures
            r == answered(self.posts@),
    {
        let mut posts = self.posts;
        posts.pop()
    }
}

impl PagesResponse {
    /// The listed pages, in the order the CMS gave them.
    pub fn into_pages(self) -> (r: Vec<PageListing>)
        ensures
            r@ == self.pages@,
    {
        self.pages
    }
}

impl PostsResponse {
    /// The listed posts, in the order the CMS gave them.
    pub fn into_posts(self) -> (r: Vec<PostListing>)
        ensures
            r@ == self.posts@,
    {
        self.posts
    }
}

impl SettingsResponse {
    /// The settings that the answer carries.
    pub fn into_settings(self) -> (r: Settings)
        ensures
            r == self.settings,
    {
        self.settings
    }
}

} // verus!
