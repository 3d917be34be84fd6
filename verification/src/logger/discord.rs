//! Posting kept statuses to a Discord webhook.
use crate::config::DiscordConfig;
use crate::status::{AttachmentType, Status, StatusVisibility};
use crate::text::{replace_seq, replace_str, views};
use vstd::prelude::*;

verus! {

/// The Markdown that fast_html2md's `rewrite_html` makes of the HTML `html`.
pub uninterp spec fn markdown_of(html: Seq<char>, commonmark: bool) -> Seq<char>;

/// `rewrite_html` of fast_html2md (library name `html2md`).  Claims only that the
/// result is the Markdown named by `markdown_of`.
#[verifier::external_body]
fn rewrite_html(html: &str, commonmark: bool) -> (res: String)
    ensures
        res@ == markdown_of(html@, commonmark),
{
    html2md::rewrite_html(html, commonmark)
}

/// Most images sent for one status.
pub const MAX_IMAGES: usize = 10;

/// The description of an embed: the content as Markdown, with links shown by
/// their text without `https://`, and `#` and `_` unescaped.
pub open spec fn embed_description(content: Seq<char>) -> Seq<char> {
    replace_seq(
        replace_seq(replace_seq(markdown_of(content, false), "[https://"@, "["@), "\\#"@, "#"@),
        "\\_"@,
        "_"@,
    )
}

/// The URLs of the image attachments of `atts`, in order.
pub open spec fn image_urls(atts: Seq<crate::status::Attachment>) -> Seq<Seq<char>>
    decreases atts.len(),
{
    if atts.len() == 0 {
        Seq::empty()
    } else {
        let rest = image_urls(atts.drop_last());
        if atts.last().kind == AttachmentType::Image {
            rest.push(atts.last().url@)
        } else {
            rest
        }
    }
}

/// The first `MAX_IMAGES` entries of `urls`.
pub open spec fn first_images(urls: Seq<Seq<char>>) -> Seq<Seq<char>> {
    if urls.len() <= MAX_IMAGES {
        urls
    } else {
        urls.take(MAX_IMAGES as int)
    }
}

/// The images sent for a status: its first `MAX_IMAGES` image attachments.
pub open spec fn sent_images(status: Status) -> Seq<Seq<char>> {
    first_images(image_urls(status.media_attachments@))
}

/// What is posted to the webhook for one status.
pub enum DiscordPayload {
    /// A message whose content is the status's URI.
    Link { content: String },
    /// A message with embeds: a first one that describes the status and shows its
    /// first image, and one more per further image.
    Embeds {
        username: String,
        avatar_url: String,
        description: String,
        url: String,
        timestamp: String,
        title: String,
        image: Option<String>,
        more_images: Vec<String>,
    },
}

/// Whether a status is posted with embeds: always when so configured, and for
/// private and direct statuses in any case.
pub open spec fn uses_embed(use_embed: bool, status: Status) -> bool {
    use_embed || status.visibility == StatusVisibility::Private || status.visibility
        == StatusVisibility::Direct
}

/// `payload` is what is posted for `status`: its URI alone, or, when embeds are used,
/// its author, its content as Markdown, its URI and time, and its images.
pub open spec fn is_payload_for(use_embed: bool, status: Status, payload: DiscordPayload) -> bool {
    match payload {
        DiscordPayload::Link { content } => !uses_embed(use_embed, status) && content@
            == status.uri@,
        DiscordPayload::Embeds {
            username,
            avatar_url,
            description,
            url,
            timestamp,
            title,
            image,
            more_images,
        } => {
            let images = sent_images(status);
            &&& uses_embed(use_embed, status)
            &&& username@ == status.account.display_name@
            &&& avatar_url@ == status.account.avatar@
            &&& description@ == embed_description(status.content@)
            &&& url@ == status.uri@
            &&& timestamp@ == status.created_at@
            &&& title@ == status.uri@
            &&& (images.len() == 0 ==> image is None && more_images@.len() == 0)
            &&& (images.len() > 0 ==> (image matches Some(first) && first@ == images[0]))
            &&& (images.len() > 0 ==> views(more_images@) == images.subrange(
                1,
                images.len() as int,
            ))
        },
    }
}

/// Posts kept statuses to a Discord webhook.
pub struct DiscordLogger {
    pub webhook: url::Url,
    pub use_embed: bool,
}

impl DiscordLogger {
    /// A logger for the webhook of `config`, which must be given.
    pub fn new(config: DiscordConfig) -> (res: Self)
        requires
            config.webhook is Some,
        ensures
            res.webhook == config.webhook->0,
            res.use_embed == config.use_embed,
    {
        DiscordLogger { webhook: config.webhook.unwrap(), use_embed: config.use_embed }
    }

    /// The message to post for `status`.
    pub fn log(&self, status: &Status) -> (res: DiscordPayload)
        ensures
            is_payload_for(self.use_embed, *status, res),
    {
        let use_embed = self.use_embed || status.visibility == StatusVisibility::Private
            || status.visibility == StatusVisibility::Direct;
        if !use_embed {
            return DiscordPayload::Link { content: status.uri.clone() };
        }
        let images = collect_images(&status.media_attachments);
        let markdown = rewrite_html(status.content.as_str(), false);
        proof {
            reveal_strlit("[https://");
            reveal_strlit("\\#");
            reveal_strlit("\\_");
        }
        let d1 = replace_str(markdown.as_str(), "[https://", "[");
        let d2 = replace_str(d1.as_str(), "\\#", "#");
        let description = replace_str(d2.as_str(), "\\_", "_");
        let mut image: Option<String> = None;
        let mut more_images: Vec<String> = Vec::new();
        let n = images.len();
        let mut i: usize = 0;
        assert(views(images@) == sent_images(*status));
        while i < n
            invariant
                n == images@.len(),
                views(images@) == sent_images(*status),
                i <= n,
                i == 0 ==> image is None && more_images@.len() == 0,
                i > 0 ==> (image matches Some(first) && first@ == images@[0]@),
                i > 0 ==> more_images@.len() == i - 1,
                i > 0 ==> forall|k: int|
                    0 <= k < i - 1 ==> #[trigger] more_images@[k]@ == images@[k + 1]@,
            decreases n - i,
        {
            if i == 0 {
                image = Some(images[i].clone());
            } else {
                more_images.push(images[i].clone());
            }
            i = i + 1;
        }
        proof {
            if n > 0 {
                assert(views(more_images@) =~= views(images@).subrange(1, n as int));
            }
        }
        DiscordPayload::Embeds {
            username: status.account.display_name.clone(),
            avatar_url: status.account.avatar.clone(),
            description,
            url: status.uri.clone(),
            timestamp: status.created_at.clone(),
            title: status.uri.clone(),
            image,
            more_images,
        }
    }
}

/// The URLs of the first `MAX_IMAGES` image attachments of `atts`.
fn collect_images(atts: &Vec<crate::status::Attachment>) -> (res: Vec<String>)
    ensures
        views(res@) == first_images(image_urls(atts@)),
{
    let mut res: Vec<String> = Vec::new();
    let n = atts.len();
    let mut i: usize = 0;
    while i < n
        invariant
            n == atts@.len(),
            i <= n,
            views(res@) == first_images(image_urls(atts@.take(i as int))),
        decreases n - i,
    {
        let ghost before = image_urls(atts@.take(i as int));
        assert(atts@.take(i + 1).drop_last() == atts@.take(i as int));
        assert(atts@.take(i + 1).last() == atts@[i as int]);
        if atts[i].kind == AttachmentType::Image {
            assert(image_urls(atts@.take(i + 1)) == before.push(atts@[i as int].url@));
            if res.len() < MAX_IMAGES {
                let ghost old = res@;
                let url = atts[i].url.clone();
                res.push(url);
                assert(views(res@) =~= views(old).push(atts@[i as int].url@));
                assert(before.len() < MAX_IMAGES);
                assert(views(res@) =~= first_images(before.push(atts@[i as int].url@)));
            } else {
                assert(first_images(before.push(atts@[i as int].url@)) =~= first_images(before));
            }
        }
        i = i + 1;
    }
    assert(atts@.take(n as int) == atts@);
    res
}

/// At most `MAX_IMAGES` images are sent, and they are the first image attachments,
/// in order.
pub proof fn lemma_sent_images_are_first_images(status: Status)
    ensures
        sent_images(status).len() <= MAX_IMAGES,
        sent_images(status).len() <= image_urls(status.media_attachments@).len(),
        forall|i: int|
            0 <= i < sent_images(status).len() ==> #[trigger] sent_images(status)[i] == image_urls(
                status.media_attachments@,
            )[i],
{
}

/// Private and direct statuses are always posted with embeds, so that their
/// content is not fetched from a link.
pub proof fn lemma_private_statuses_embedded(use_embed: bool, status: Status)
    requires
        status.visibility == StatusVisibility::Private || status.visibility
            == StatusVisibility::Direct,
    ensures
        uses_embed(use_embed, status),
{
}

/// A logger configured for embeds posts every status, of any visibility, as embeds.
pub proof fn lemma_configured_embeds_always(status: Status, payload: DiscordPayload)
    requires
        is_payload_for(true, status, payload),
    ensures
        payload is Embeds,
{
}

/// A logger not configured for embeds posts a bare link exactly for the statuses
/// that are neither private nor direct.
pub proof fn lemma_link_unless_private(status: Status, payload: DiscordPayload)
    requires
        is_payload_for(false, status, payload),
    ensures
        payload is Link <==> (status.visibility != StatusVisibility::Private
            && status.visibility != StatusVisibility::Direct),
{
}

} // verus!
