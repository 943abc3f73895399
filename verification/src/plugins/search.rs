//! The search plugin: a search index with previews, and the page that
//! searches it.
//!
//! The plugin computes; writing its files is left to whoever hosts it.

use vstd::prelude::*;
use vstd::string::*;
use crate::generation::order::{all_positions, arrange, arranged, codes, lex_lt, positions, SortKey};
use crate::models::types::{all_same, copy_all, Post};
use crate::models::value::Value;
use crate::plugins::error::{PluginError, PluginHook};
use crate::plugins::{resource_views, ContentType, Plugin, PluginContext, ResourceLocation};
use crate::text::{
    chars_of, clone_strings, join_path, path_join, same_text, take_chars, texts,
};
use crate::utils::time::{date_text, format_date};

verus! {

/// The settings of the plugin.
#[derive(Clone, Debug)]
pub struct SearchConfig {
    pub enabled: bool,
    pub full_content: bool,
    /// The largest number of entries in the index.
    pub limit: usize,
    /// `date`, `-date`, `title` or `-title`.
    pub order_by: String,
    pub live_search: bool,
    pub index_path: String,
    /// The number of characters of a preview.
    pub preview_length: usize,
    pub highlight: bool,
}

impl Default for SearchConfig {
    fn default() -> (r: SearchConfig)
        ensures
            r.enabled,
            r.full_content,
            r.limit == 10,
            r.order_by@ == "date"@,
            r.live_search,
            r.index_path@ == "/search/search.json"@,
            r.preview_length == 200,
            r.highlight,
    {
        SearchConfig {
            enabled: true,
            full_content: true,
            limit: 10,
            order_by: "date".to_string(),
            live_search: true,
            index_path: "/search/search.json".to_string(),
            preview_length: 200,
            highlight: true,
        }
    }
}

/// One entry of the index.
#[derive(Clone, Debug)]
pub struct SearchIndexItem {
    pub title: String,
    pub path: String,
    pub content: String,
    pub date: String,
    pub categories: Vec<String>,
    pub tags: Vec<String>,
    pub preview: String,
}

/// The first `length` characters of a text and an ellipsis, or the text
/// itself where it is no longer than that.
pub open spec fn cut(text: Seq<char>, length: nat) -> Seq<char> {
    if text.len() > length {
        text.take(length as int) + "..."@
    } else {
        text
    }
}

/// What the index keeps of the body of a post.
pub open spec fn kept_content(config: SearchConfig, post: Post) -> Seq<char> {
    if config.full_content {
        post.content@
    } else {
        match post.excerpt {
            Some(excerpt) => excerpt@,
            None => cut(post.content@, config.preview_length as nat),
        }
    }
}

/// Whether `item` is the entry of `post`.
pub open spec fn is_entry_for(item: SearchIndexItem, config: SearchConfig, post: Post) -> bool {
    &&& item.title@ == post.title@
    &&& item.path@ == post.path@
    &&& item.content@ == kept_content(config, post)
    &&& item.date@ == date_text(post.date)
    &&& texts(item.categories@) == texts(post.categories@)
    &&& texts(item.tags@) == texts(post.tags@)
    &&& item.preview@ == cut(kept_content(config, post), config.preview_length as nat)
}

fn cut_text(text: &str, length: usize) -> (r: String)
    ensures
        r@ == cut(text@, length as nat),
{
    if text.unicode_len() > length {
        let mut out = take_chars(text, length);
        out.append("...");
        out
    } else {
        text.to_string()
    }
}

/// Makes the entry of a post.
pub fn index_entry(config: &SearchConfig, post: &Post) -> (item: SearchIndexItem)
    ensures
        is_entry_for(item, *config, *post),
{
    let content = if config.full_content {
        post.content.clone()
    } else {
        match &post.excerpt {
            Some(excerpt) => excerpt.clone(),
            None => cut_text(post.content.as_str(), config.preview_length),
        }
    };
    let preview = cut_text(content.as_str(), config.preview_length);
    SearchIndexItem {
        title: post.title.clone(),
        path: post.path.clone(),
        content,
        date: format_date(&post.date),
        categories: clone_strings(&post.categories),
        tags: clone_strings(&post.tags),
        preview,
    }
}

/// The order of posts by the text of their dates.
pub open spec fn by_day(posts: Seq<Post>) -> spec_fn(int, int) -> bool {
    |i: int, j: int| lex_lt(codes(date_text(posts[i].date)), codes(date_text(posts[j].date)))
}

/// The order of posts by the text of their dates, backwards.
pub open spec fn by_day_backwards(posts: Seq<Post>) -> spec_fn(int, int) -> bool {
    |i: int, j: int| lex_lt(codes(date_text(posts[j].date)), codes(date_text(posts[i].date)))
}

/// The order of posts by their titles.
pub open spec fn by_title(posts: Seq<Post>) -> spec_fn(int, int) -> bool {
    |i: int, j: int| lex_lt(codes(posts[i].title@), codes(posts[j].title@))
}

/// The order of posts by their titles, backwards.
pub open spec fn by_title_backwards(posts: Seq<Post>) -> spec_fn(int, int) -> bool {
    |i: int, j: int| lex_lt(codes(posts[j].title@), codes(posts[i].title@))
}

/// The order in which the entries of the posts go into the index: by date,
/// latest first, under `date`; by date under `-date`; by title under
/// `title`; by title backwards under `-title`; else as the posts stand.
pub open spec fn index_order(config: SearchConfig, posts: Seq<Post>) -> Seq<usize> {
    let every = all_positions(posts.len());
    if config.order_by@ == "date"@ {
        arranged(by_day_backwards(posts), every)
    } else if config.order_by@ == "-date"@ {
        arranged(by_day(posts), every)
    } else if config.order_by@ == "title"@ {
        arranged(by_title(posts), every)
    } else if config.order_by@ == "-title"@ {
        arranged(by_title_backwards(posts), every)
    } else {
        every
    }
}

/// The position of the post behind entry `k` of the index.
pub open spec fn indexed_post(config: SearchConfig, posts: Seq<Post>, k: int) -> int {
    index_order(config, posts)[k] as int
}

/// How many entries the index has: one for each post, up to the limit.
pub open spec fn index_length(config: SearchConfig, posts: Seq<Post>) -> nat {
    if posts.len() > config.limit {
        config.limit as nat
    } else {
        posts.len()
    }
}

/// Whether `index` is the index of `posts`: as many entries as there are
/// posts, up to the limit, each the entry of the post whose turn it is.
pub open spec fn is_index_of(
    index: Seq<SearchIndexItem>,
    config: SearchConfig,
    posts: Seq<Post>,
) -> bool {
    &&& index.len() == index_length(config, posts)
    &&& (forall|k: int|
        0 <= k < index.len() ==> (0 <= indexed_post(config, posts, k) < posts.len())
            && is_entry_for(#[trigger] index[k], config, posts[indexed_post(config, posts, k)]))
}

/// Builds the index of the posts.
pub fn build_index(config: &SearchConfig, posts: &Vec<Post>) -> (index: Vec<SearchIndexItem>)
    ensures
        is_index_of(index@, *config, posts@),
{
    let every = positions(posts.len());
    let dated = same_text(config.order_by.as_str(), "date") || same_text(
        config.order_by.as_str(),
        "-date",
    );
    let titled = same_text(config.order_by.as_str(), "title") || same_text(
        config.order_by.as_str(),
        "-title",
    );
    let backwards = same_text(config.order_by.as_str(), "date") || same_text(
        config.order_by.as_str(),
        "-title",
    );
    proof {
        reveal_strlit("date");
        reveal_strlit("-date");
        reveal_strlit("title");
        reveal_strlit("-title");
    }
    let order = if dated || titled {
        let mut keys: Vec<Vec<char>> = Vec::new();
        let mut i: usize = 0;
        while i < posts.len()
            invariant
                i <= posts.len(),
                keys@.len() == i,
                forall|k: int|
                    0 <= k < i ==> (#[trigger] keys@[k])@ == if dated {
                        date_text(posts@[k].date)
                    } else {
                        posts@[k].title@
                    },
            decreases posts.len() - i,
        {
            if dated {
                let day = format_date(&posts[i].date);
                keys.push(chars_of(day.as_str()));
            } else {
                keys.push(chars_of(posts[i].title.as_str()));
            }
            i = i + 1;
        }
        let key = if backwards {
            SortKey::TextsDescending(&keys)
        } else {
            SortKey::Texts(&keys)
        };
        let order = arrange(&key, &every);
        proof {
            let wanted = if dated && backwards {
                by_day_backwards(posts@)
            } else if dated {
                by_day(posts@)
            } else if backwards {
                by_title_backwards(posts@)
            } else {
                by_title(posts@)
            };
            assert forall|a: int, b: int|
                0 <= a < every@.len() && 0 <= b < every@.len() implies key.relation()(
                every@[a] as int,
                every@[b] as int,
            ) == wanted(every@[a] as int, every@[b] as int) by {
                assert(keys@[a]@ == if dated {
                    date_text(posts@[a].date)
                } else {
                    posts@[a].title@
                });
                assert(keys@[b]@ == if dated {
                    date_text(posts@[b].date)
                } else {
                    posts@[b].title@
                });
            }
            crate::generation::order::lemma_arranged_alike(key.relation(), wanted, every@);
            assert("date"@.len() == 4 && "-date"@.len() == 5 && "title"@.len() == 5
                && "-title"@.len() == 6);
            assert("-date"@[0] == '-' && "title"@[0] == 't');
            assert(order@ == index_order(*config, posts@));
        }
        order
    } else {
        every
    };
    let mut index: Vec<SearchIndexItem> = Vec::new();
    let mut k: usize = 0;
    while k < order.len() && k < config.limit
        invariant
            k <= order@.len(),
            k <= config.limit,
            order@ == index_order(*config, posts@),
            order@.len() == posts@.len(),
            forall|j: int| 0 <= j < order@.len() ==> (#[trigger] order@[j]) < posts@.len(),
            index@.len() == k,
            forall|j: int|
                0 <= j < k ==> is_entry_for(
                    #[trigger] index@[j],
                    *config,
                    posts@[indexed_post(*config, posts@, j)],
                ),
        decreases order@.len() - k,
    {
        index.push(index_entry(config, &posts[order[k]]));
        k = k + 1;
    }
    index
}

/// The search page, up to the path of the index.
pub const SEARCH_PAGE_HEAD: &'static str = "<!DOCTYPE html>\n<html>\n<head>\n    <meta charset=\"UTF-8\">\n    <title>站内搜索</title>\n    <link rel=\"stylesheet\" href=\"/css/style.css\">\n    <style>\n        .search-container { max-width: 800px; margin: 50px auto; padding: 20px; }\n        #search-input { width: 100%; padding: 10px; font-size: 16px; margin-bottom: 20px; border: 1px solid #ddd; border-radius: 4px; }\n        #search-results { list-style: none; padding: 0; }\n        .search-result { margin-bottom: 20px; padding: 15px; border: 1px solid #eee; border-radius: 4px; }\n        .search-result h3 { margin: 0 0 10px 0; }\n        .search-result p { margin: 0; color: #666; }\n        .highlight { background-color: yellow; padding: 2px; }\n    </style>\n</head>\n<body>\n    <div class=\"search-container\">\n        <input type=\"text\" id=\"search-input\" placeholder=\"输入关键词搜索...\">\n        <ul id=\"search-results\"></ul>\n    </div>\n    <script>\n        const searchConfig = {\n            indexPath: '";

/// The search page, after the path of the index.
pub const SEARCH_PAGE_TAIL: &'static str = "',\n            weights: { title: 10, content: 5, tags: 8, categories: 8 },\n            highlight: true,\n            liveSearch: true\n        };\n\n        let searchIndex = null;\n        let searchTimeout = null;\n\n        async function loadSearchIndex() {\n            try {\n                const response = await fetch(searchConfig.indexPath);\n                if (!response.ok) throw new Error(`Failed to load search index: ${response.status}`);\n                searchIndex = await response.json();\n                console.log('Loaded', searchIndex.length, 'records');\n            } catch (error) {\n                console.error('Error loading search index:', error);\n                throw error;\n            }\n        }\n\n        function filterAndScoreResults(query) {\n            if (!Array.isArray(searchIndex)) {\n                console.error('Search index is not an array:', searchIndex);\n                return [];\n            }\n\n            const results = [];\n            const terms = query.toLowerCase().split(/\\s+/);\n\n            try {\n                for (const item of searchIndex) {\n                    let score = 0;\n                    const titleLower = (item.title || '').toLowerCase();\n                    const contentLower = (item.content || '').toLowerCase();\n                    const tags = (item.tags || []).map(t => t.toLowerCase());\n                    const categories = (item.categories || []).map(c => c.toLowerCase());\n\n                    for (const term of terms) {\n                        // 标题匹配\n                        if (titleLower.includes(term)) {\n                            score += searchConfig.weights.title;\n                        }\n\n                        // 内容匹配\n                        if (contentLower.includes(term)) {\n                            score += searchConfig.weights.content;\n                        }\n\n                        // 标签匹配\n                        if (tags.some(tag => tag.includes(term))) {\n                            score += searchConfig.weights.tags;\n                        }\n\n                        // 分类匹配\n                        if (categories.some(cat => cat.includes(term))) {\n                            score += searchConfig.weights.categories;\n                        }\n                    }\n\n                    if (score > 0) {\n                        results.push({ ...item, score });\n                    }\n                }\n            } catch (error) {\n                console.error('Error processing search:', error);\n            }\n\n            return results.sort((a, b) => b.score - a.score);\n        }\n\n        function highlightText(text, query) {\n            if (!text || !query) return text || '';\n            const terms = query.toLowerCase().split(/\\s+/);\n            let highlighted = text;\n\n            for (const term of terms) {\n                const regex = new RegExp(`(${term})`, 'gi');\n                highlighted = highlighted.replace(regex, '<mark>$1</mark>');\n            }\n\n            return highlighted;\n        }\n\n        function displayResults(results, query) {\n            const container = document.getElementById('search-results');\n            container.innerHTML = '';\n\n            if (results.length === 0) {\n                container.innerHTML = '<div class=\"no-results\">未找到相关文章</div>';\n                return;\n            }\n\n            const html = results.map(item => {\n                try {\n                    let preview = item.preview || '';\n                    if (searchConfig.highlight) {\n                        preview = highlightText(preview, query);\n                    }\n\n                    return `\n                        <div class=\"search-result\">\n                            <h3 class=\"result-title\">\n                                <a href=\"/${item.path}\">${searchConfig.highlight ? highlightText(item.title, query) : item.title}</a>\n                            </h3>\n                            <div class=\"result-meta\">\n                                <span class=\"date\">${item.date}</span>\n                                ${item.categories && item.categories.length ? \n                                    `<span class=\"categories\">分类：${item.categories.join(', ')}</span>` : ''}\n                                ${item.tags && item.tags.length ? \n                                    `<span class=\"tags\">标签：${item.tags.join(', ')}</span>` : ''}\n                            </div>\n                            <div class=\"result-preview\">${preview}</div>\n                        </div>`;\n                } catch (error) {\n                    console.error('Error displaying result:', error);\n                    return '<div class=\"search-error\">显示搜索结果时发生错误</div>';\n                }\n            }).join('');\n\n            container.innerHTML = html;\n        }\n\n        async function search() {\n            const query = document.getElementById('search-input').value.trim();\n            if (!query) {\n                document.getElementById('search-results').innerHTML = '';\n                return;\n            }\n\n            try {\n                if (!searchIndex) await loadSearchIndex();\n                const results = filterAndScoreResults(query);\n                console.log('Found', results.length, 'results');\n                displayResults(results, query);\n            } catch (error) {\n                console.error('Search error:', error);\n                document.getElementById('search-results').innerHTML = \n                    '<div class=\"search-error\">搜索时发生错误，请稍后重试</div>';\n            }\n        }\n\n        // 页面加载时自动执行搜索（如果URL中有查询参数）\n        window.addEventListener('DOMContentLoaded', () => {\n            const urlParams = new URLSearchParams(window.location.search);\n            const query = urlParams.get('q');\n            if (query) {\n                document.getElementById('search-input').value = query;\n                search();\n            }\n        });\n\n        // 根据配置决定是使用实时搜索还是回车搜索\n        if (searchConfig.liveSearch) {\n            document.getElementById('search-input').addEventListener('input', () => {\n                clearTimeout(searchTimeout);\n                searchTimeout = setTimeout(search, 300);\n            });\n        } else {\n            document.getElementById('search-input').addEventListener('keypress', e => {\n                if (e.key === 'Enter') search();\n            });\n        }\n\n        // 初始加载搜索索引\n        loadSearchIndex().catch(error => {\n            console.error('Failed to load search index:', error);\n        });\n    </script>\n</body>\n</html>";

/// The script of the search page.
pub const SEARCH_SCRIPT: &'static str = "\nasync function search() {\n    const input = document.getElementById('search-input');\n    const query = input.value.toLowerCase();\n    const resultsContainer = document.getElementById('search-results');\n\n    if (!query) {\n        resultsContainer.innerHTML = '';\n        return;\n    }\n\n    try {\n        console.log('开始搜索，搜索路径:', searchConfig.indexPath);\n        const response = await fetch(searchConfig.indexPath);\n        if (!response.ok) {\n            throw new Error(`HTTP error! status: ${response.status}`);\n        }\n        const index = await response.json();\n        console.log('成功获取搜索索引:', index.length, '条记录');\n        \n        const results = filterAndScoreResults(index, query);\n        console.log('搜索结果:', results.length, '条记录');\n        displayResults(results, query);\n    } catch (error) {\n        console.error('搜索出错:', error);\n        resultsContainer.innerHTML = `<div class=\"search-error\">搜索出错: ${error.message}</div>`;\n    }\n}\n\nfunction filterAndScoreResults(index, query) {\n    if (!Array.isArray(index)) {\n        console.error('搜索索引格式错误:', index);\n        return [];\n    }\n    \n    return index\n        .map(item => {\n        let score = 0;\n            \n            try {\n                const titleLower = (item.title || '').toLowerCase();\n                const contentLower = (item.content || '').toLowerCase();\n                const tags = Array.isArray(item.tags) ? item.tags : [];\n                const categories = Array.isArray(item.categories) ? item.categories : [];\n                \n                // 标题匹配\n                if (titleLower.includes(query)) {\n            score += searchConfig.weights.title;\n        }\n                \n                // 内容匹配\n                if (contentLower.includes(query)) {\n            score += searchConfig.weights.content;\n        }\n                \n                // 标签匹配\n                if (tags.some(tag => tag.toLowerCase().includes(query))) {\n            score += searchConfig.weights.tags;\n        }\n                \n                // 分类匹配\n                if (categories.some(cat => cat.toLowerCase().includes(query))) {\n            score += searchConfig.weights.categories;\n        }\n            } catch (error) {\n                console.error('处理搜索项时出错:', error, item);\n            }\n            \n        return { ...item, score };\n        })\n        .filter(item => item.score > 0)\n        .sort((a, b) => b.score - a.score);\n}\n\nfunction displayResults(results, query) {\n    const resultsContainer = document.getElementById('search-results');\n    \n    if (results.length === 0) {\n        resultsContainer.innerHTML = '<div class=\"no-results\">未找到相关文章</div>';\n        return;\n    }\n\n    const html = results.map(item => {\n        try {\n            let preview = item.preview || '';\n        if (searchConfig.highlight) {\n            preview = highlightText(preview, query);\n        }\n\n        return `\n            <div class=\"search-result\">\n                    <h3 class=\"result-title\">\n                        <a href=\"/${item.path}\">${searchConfig.highlight ? highlightText(item.title, query) : item.title}</a>\n                    </h3>\n                    <div class=\"result-meta\">\n                    <span class=\"date\">${item.date}</span>\n                        ${item.categories && item.categories.length ? `<span class=\"categories\">分类：${item.categories.join(', ')}</span>` : ''}\n                        ${item.tags && item.tags.length ? `<span class=\"tags\">标签：${item.tags.join(', ')}</span>` : ''}\n                </div>\n                    <div class=\"result-preview\">${preview}</div>\n                </div>`;\n        } catch (error) {\n            console.error('Error displaying result:', error);\n            return '<div class=\"search-error\">显示搜索结果时发生错误</div>';\n        }\n    }).join('');\n\n    resultsContainer.innerHTML = html;\n}\n\nif (searchConfig.liveSearch) {\n    document.getElementById('search-input').addEventListener('input', () => {\n        clearTimeout(searchTimeout);\n        searchTimeout = setTimeout(search, 300);\n    });\n} else {\n    document.getElementById('search-input').addEventListener('keypress', (e) => {\n        if (e.key === 'Enter') {\n            search();\n        }\n    });\n}\n\n// 初始加载搜索索引\nloadSearchIndex().catch(error => {\n    console.error('Failed to load search index:', error);\n});\n";

/// The search page for an index at the given path.
pub open spec fn search_page_html(index_path: Seq<char>) -> Seq<char> {
    SEARCH_PAGE_HEAD@ + index_path + SEARCH_PAGE_TAIL@
}

/// The search plugin.
#[derive(Clone, Debug)]
pub struct SearchPlugin {
    name: String,
    version: String,
    description: String,
    config: SearchConfig,
    output_dir: String,
    posts: Vec<Post>,
}

impl SearchPlugin {
    /// The settings in use.
    pub closed spec fn settings(&self) -> SearchConfig {
        self.config
    }

    /// The output directory the plugin was told of.
    pub closed spec fn output(&self) -> Seq<char> {
        self.output_dir@
    }

    /// The posts the plugin was told of.
    pub closed spec fn known_posts(&self) -> Seq<Post> {
        self.posts@
    }

    /// A plugin that knows no site yet.
    pub fn new() -> (r: Self)
        ensures
            r.reported_name() == "search"@,
            r.reported_version() == "0.1.0"@,
            r.reported_description() == "Search plugin for Rust-Hexo"@,
            r.settings().enabled,
            r.settings().full_content,
            r.settings().limit == 10,
            r.settings().order_by@ == "date"@,
            r.settings().live_search,
            r.settings().index_path@ == "/search/search.json"@,
            r.settings().preview_length == 200,
            r.settings().highlight,
            r.output().len() == 0,
            r.known_posts().len() == 0,
    {
        SearchPlugin {
            name: "search".to_string(),
            version: "0.1.0".to_string(),
            description: "Search plugin for Rust-Hexo".to_string(),
            config: SearchConfig::default(),
            output_dir: String::new(),
            posts: Vec::new(),
        }
    }

    /// A plugin with the given settings.
    pub fn with_config(config: SearchConfig) -> (r: Self)
        ensures
            r.reported_name() == "search"@,
            r.reported_version() == "0.1.0"@,
            r.reported_description() == "Search plugin for Rust-Hexo"@,
            r.settings() == config,
            r.output().len() == 0,
            r.known_posts().len() == 0,
    {
        SearchPlugin {
            name: "search".to_string(),
            version: "0.1.0".to_string(),
            description: "Search plugin for Rust-Hexo".to_string(),
            config,
            output_dir: String::new(),
            posts: Vec::new(),
        }
    }

    /// The index of the given posts.
    pub fn generate_search_index(&self, posts: &Vec<Post>) -> (r: Result<
        Vec<SearchIndexItem>,
        PluginError,
    >)
        ensures
            r is Ok,
            r matches Ok(index) ==> is_index_of(index@, self.settings(), posts@),
    {
        Ok(build_index(&self.config, posts))
    }

    /// The index of the posts the plugin was told of at its initialisation.
    pub fn index_of_site(&self) -> (r: Vec<SearchIndexItem>)
        ensures
            is_index_of(r@, self.settings(), self.known_posts()),
    {
        build_index(&self.config, &self.posts)
    }

    /// Where the index is written: `search/search.json` below the output
    /// directory.
    pub fn index_file(&self) -> (r: String)
        ensures
            r@ == path_join(path_join(self.output(), "search"@), "search.json"@),
    {
        let dir = join_path(self.output_dir.as_str(), "search");
        join_path(dir.as_str(), "search.json")
    }

    /// Where the search page is written: `search/index.html` below the
    /// output directory.
    pub fn page_file(&self) -> (r: String)
        ensures
            r@ == path_join(self.output(), "search/index.html"@),
    {
        join_path(self.output_dir.as_str(), "search/index.html")
    }

    /// Where the script is written: `search/search.js` below the output
    /// directory.
    pub fn script_file(&self) -> (r: String)
        ensures
            r@ == path_join(self.output(), "search/search.js"@),
    {
        join_path(self.output_dir.as_str(), "search/search.js")
    }

    /// The search page.
    pub fn generate_search_page(&self) -> (r: Result<String, PluginError>)
        ensures
            r matches Ok(page) && page@ == search_page_html(self.settings().index_path@),
    {
        let mut page = SEARCH_PAGE_HEAD.to_string();
        page.append(self.config.index_path.as_str());
        page.append(SEARCH_PAGE_TAIL);
        Ok(page)
    }

    /// The script of the search page.
    pub fn generate_search_script(&self) -> (r: Result<String, PluginError>)
        ensures
            r matches Ok(script) && script@ == SEARCH_SCRIPT@,
    {
        Ok(SEARCH_SCRIPT.to_string())
    }
}

impl Plugin for SearchPlugin {
    open spec fn transformed(&self, content: Seq<char>, content_type: ContentType) -> Option<
        Seq<char>,
    > {
        Some(content)
    }

    closed spec fn reported_name(&self) -> Seq<char> {
        self.name@
    }

    closed spec fn reported_version(&self) -> Seq<char> {
        self.version@
    }

    closed spec fn reported_description(&self) -> Seq<char> {
        self.description@
    }

    /// The plugin has no assets of its own to inject.
    open spec fn offered_resources(&self) -> Seq<(Seq<char>, ResourceLocation)> {
        Seq::empty()
    }

    /// The plugin offers no template function.
    open spec fn offered_functions(&self) -> Seq<Seq<char>> {
        Seq::empty()
    }

    /// The plugin succeeds at every checkpoint.
    open spec fn hook_answer(&self, hook: PluginHook) -> Option<Seq<char>> {
        None
    }

    /// The plugin holds nothing that could fail to be released.
    open spec fn cleanup_answer(&self) -> Option<Seq<char>> {
        None
    }

    fn name(&self) -> (r: &str) {
        self.name.as_str()
    }

    fn version(&self) -> (r: &str) {
        self.version.as_str()
    }

    fn description(&self) -> (r: &str) {
        self.description.as_str()
    }

    /// Takes note of the output directory and of the posts of the site.
    fn init(&mut self, context: &PluginContext) -> (r: Result<(), PluginError>)
        ensures
            r is Ok,
            final(self).output() == context.output_dir@,
            all_same(context.posts@, final(self).known_posts()),
            final(self).settings() == old(self).settings(),
            final(self).reported_name() == old(self).reported_name(),
    {
        self.output_dir = context.output_dir.clone();
        self.posts = copy_all(&context.posts);
        Ok(())
    }

    fn execute_hook(&self, hook: &PluginHook) -> (r: Result<(), PluginError>)
        ensures
            r is Ok,
    {
        Ok(())
    }

    fn process_content(&self, content: &str, content_type: ContentType) -> (r: Result<
        String,
        PluginError,
    >) {
        Ok(content.to_string())
    }

    fn get_resources(&self) -> (r: Vec<(String, ResourceLocation)>)
        ensures
            r@.len() == 0,
    {
        let none: Vec<(String, ResourceLocation)> = Vec::new();
        assert(resource_views(none@) =~= Seq::empty());
        none
    }

    fn get_template_functions(&self) -> (r: Vec<String>)
        ensures
            r@.len() == 0,
    {
        let none: Vec<String> = Vec::new();
        assert(texts(none@) =~= Seq::<Seq<char>>::empty());
        none
    }

    fn call_template_function(&self, name: &str, args: &Vec<(String, Value)>) -> (r: Result<
        Value,
        String,
    >)
        ensures
            r matches Err(reason) && reason@ == name@,
    {
        Err(name.to_string())
    }

    fn cleanup(&self) -> (r: Result<(), PluginError>)
        ensures
            r is Ok,
    {
        Ok(())
    }
}

} // verus!
